use vstd::prelude::*;
use crate::device::{DeviceView, OSVersionView};
use crate::json::{no_members, parsed, Json, JsonNumber};

verus! {

/// The document for a byte: its value as a number.
pub open spec fn byte_json(b: u8) -> Json {
    Json::Number(JsonNumber::Unsigned(b as u64))
}

/// The document for a byte sequence: the array of its bytes as numbers.
pub open spec fn bytes_json(data: Seq<u8>) -> Json {
    Json::Array(data.map_values(|b: u8| byte_json(b)))
}

/// The document for a firmware version: an object with its four fields.
pub open spec fn version_json(v: OSVersionView) -> Json {
    Json::Object(
        no_members()
            .insert("incremental"@, Json::Text(v.incremental))
            .insert("release"@, Json::Text(v.release))
            .insert("codename"@, Json::Text(v.codename))
            .insert("sdk"@, Json::Number(JsonNumber::Unsigned(v.sdk as u64)))
    )
}

/// The document for a device: one object with every field under its name,
/// texts as strings, the version as an object of its own, and the two binary
/// fields as arrays of numbers.
pub open spec fn device_json(d: DeviceView) -> Json {
    Json::Object(
        no_members()
            .insert("display"@, Json::Text(d.display))
            .insert("product"@, Json::Text(d.product))
            .insert("device"@, Json::Text(d.device))
            .insert("board"@, Json::Text(d.board))
            .insert("model"@, Json::Text(d.model))
            .insert("finger_print"@, Json::Text(d.finger_print))
            .insert("boot_id"@, Json::Text(d.boot_id))
            .insert("proc_version"@, Json::Text(d.proc_version))
            .insert("imei"@, Json::Text(d.imei))
            .insert("brand"@, Json::Text(d.brand))
            .insert("bootloader"@, Json::Text(d.bootloader))
            .insert("base_band"@, Json::Text(d.base_band))
            .insert("version"@, version_json(d.version))
            .insert("sim_info"@, Json::Text(d.sim_info))
            .insert("os_type"@, Json::Text(d.os_type))
            .insert("mac_address"@, Json::Text(d.mac_address))
            .insert("ip_address"@, bytes_json(d.ip_address))
            .insert("wifi_bssid"@, Json::Text(d.wifi_bssid))
            .insert("wifi_ssid"@, Json::Text(d.wifi_ssid))
            .insert("imsi_md5"@, bytes_json(d.imsi_md5))
            .insert("android_id"@, Json::Text(d.android_id))
            .insert("apn"@, Json::Text(d.apn))
            .insert("vendor_name"@, Json::Text(d.vendor_name))
            .insert("vendor_os_name"@, Json::Text(d.vendor_os_name))
    )
}

/// The member of an object under a key; `None` where the document is no
/// object or has no such member.
pub open spec fn member(doc: Json, key: Seq<char>) -> Option<Json> {
    match doc {
        Json::Object(members) => if members.contains_key(key) {
            Some(members[key])
        } else {
            None
        },
        _ => None,
    }
}

/// The characters of a document that is a string.
pub open spec fn json_text(doc: Json) -> Option<Seq<char>> {
    match doc {
        Json::Text(s) => Some(s),
        _ => None,
    }
}

/// Whether a document is a whole number from 0 to 255.
pub open spec fn is_byte(doc: Json) -> bool {
    doc matches Json::Number(JsonNumber::Unsigned(n)) && n <= 255
}

/// The byte that a document stands for, where `is_byte` holds of it.
pub open spec fn json_byte(doc: Json) -> u8 {
    match doc {
        Json::Number(JsonNumber::Unsigned(n)) => n as u8,
        _ => 0,
    }
}

/// The bytes of a document that is an array of bytes.
pub open spec fn json_bytes(doc: Json) -> Option<Seq<u8>> {
    match doc {
        Json::Array(items) => if forall|i: int| 0 <= i < items.len() ==> is_byte(#[trigger] items[i]) {
            Some(items.map_values(|item: Json| json_byte(item)))
        } else {
            None
        },
        _ => None,
    }
}

/// The API level of a document that is a whole number from 0 to `u32::MAX`.
pub open spec fn json_level(doc: Json) -> Option<u32> {
    match doc {
        Json::Number(JsonNumber::Unsigned(n)) => if n <= u32::MAX {
            Some(n as u32)
        } else {
            None
        },
        _ => None,
    }
}

/// The text under a key of an object.
pub open spec fn text_member(doc: Json, key: Seq<char>) -> Option<Seq<char>> {
    match member(doc, key) {
        Some(m) => json_text(m),
        None => None,
    }
}

/// The bytes under a key of an object.
pub open spec fn bytes_member(doc: Json, key: Seq<char>) -> Option<Seq<u8>> {
    match member(doc, key) {
        Some(m) => json_bytes(m),
        None => None,
    }
}

/// The API level under a key of an object.
pub open spec fn level_member(doc: Json, key: Seq<char>) -> Option<u32> {
    match member(doc, key) {
        Some(m) => json_level(m),
        None => None,
    }
}

/// The firmware version that a document describes: an object that has the
/// four fields, three as strings and the API level as a number that fits.
/// Other members are ignored.
pub open spec fn version_of(doc: Json) -> Option<OSVersionView> {
    if text_member(doc, "incremental"@) is Some
        && text_member(doc, "release"@) is Some
        && text_member(doc, "codename"@) is Some
        && level_member(doc, "sdk"@) is Some {
        Some(
            OSVersionView {
                incremental: text_member(doc, "incremental"@).unwrap(),
                release: text_member(doc, "release"@).unwrap(),
                codename: text_member(doc, "codename"@).unwrap(),
                sdk: level_member(doc, "sdk"@).unwrap(),
            },
        )
    } else {
        None
    }
}

/// The firmware version under a key of an object.
pub open spec fn version_member(doc: Json, key: Seq<char>) -> Option<OSVersionView> {
    match member(doc, key) {
        Some(m) => version_of(m),
        None => None,
    }
}

/// The device that a document describes: an object that has every field of
/// a device under its name and in its type. `None` where a field is missing
/// or has another type. Other members are ignored.
pub open spec fn device_of(doc: Json) -> Option<DeviceView> {
    if
        text_member(doc, "display"@) is Some
        && text_member(doc, "product"@) is Some
        && text_member(doc, "device"@) is Some
        && text_member(doc, "board"@) is Some
        && text_member(doc, "model"@) is Some
        && text_member(doc, "finger_print"@) is Some
        && text_member(doc, "boot_id"@) is Some
        && text_member(doc, "proc_version"@) is Some
        && text_member(doc, "imei"@) is Some
        && text_member(doc, "brand"@) is Some
        && text_member(doc, "bootloader"@) is Some
        && text_member(doc, "base_band"@) is Some
        && version_member(doc, "version"@) is Some
        && text_member(doc, "sim_info"@) is Some
        && text_member(doc, "os_type"@) is Some
        && text_member(doc, "mac_address"@) is Some
        && bytes_member(doc, "ip_address"@) is Some
        && text_member(doc, "wifi_bssid"@) is Some
        && text_member(doc, "wifi_ssid"@) is Some
        && bytes_member(doc, "imsi_md5"@) is Some
        && text_member(doc, "android_id"@) is Some
        && text_member(doc, "apn"@) is Some
        && text_member(doc, "vendor_name"@) is Some
        && text_member(doc, "vendor_os_name"@) is Some {
        Some(
            DeviceView {
                display: text_member(doc, "display"@).unwrap(),
                product: text_member(doc, "product"@).unwrap(),
                device: text_member(doc, "device"@).unwrap(),
                board: text_member(doc, "board"@).unwrap(),
                model: text_member(doc, "model"@).unwrap(),
                finger_print: text_member(doc, "finger_print"@).unwrap(),
                boot_id: text_member(doc, "boot_id"@).unwrap(),
                proc_version: text_member(doc, "proc_version"@).unwrap(),
                imei: text_member(doc, "imei"@).unwrap(),
                brand: text_member(doc, "brand"@).unwrap(),
                bootloader: text_member(doc, "bootloader"@).unwrap(),
                base_band: text_member(doc, "base_band"@).unwrap(),
                version: version_member(doc, "version"@).unwrap(),
                sim_info: text_member(doc, "sim_info"@).unwrap(),
                os_type: text_member(doc, "os_type"@).unwrap(),
                mac_address: text_member(doc, "mac_address"@).unwrap(),
                ip_address: bytes_member(doc, "ip_address"@).unwrap(),
                wifi_bssid: text_member(doc, "wifi_bssid"@).unwrap(),
                wifi_ssid: text_member(doc, "wifi_ssid"@).unwrap(),
                imsi_md5: bytes_member(doc, "imsi_md5"@).unwrap(),
                android_id: text_member(doc, "android_id"@).unwrap(),
                apn: text_member(doc, "apn"@).unwrap(),
                vendor_name: text_member(doc, "vendor_name"@).unwrap(),
                vendor_os_name: text_member(doc, "vendor_os_name"@).unwrap(),
            },
        )
    } else {
        None
    }
}

/// The field at which reading a firmware version stops: the first, in the
/// order of the fields, that is missing or has another type. It means
/// something only where the document is no firmware version.
pub open spec fn version_fault(doc: Json) -> Seq<char> {
    if text_member(doc, "incremental"@) is None {
        "incremental"@
    } else if text_member(doc, "release"@) is None {
        "release"@
    } else if text_member(doc, "codename"@) is None {
        "codename"@
    } else {
        "sdk"@
    }
}

/// The field at which reading a device stops: the first, in the order of
/// the fields, that is missing or has another type; for a version that is
/// there and is none, the field at which reading the version stops. It means
/// something only where the document is no device.
pub open spec fn device_fault(doc: Json) -> Seq<char> {
    if text_member(doc, "display"@) is None {
        "display"@
    } else if text_member(doc, "product"@) is None {
        "product"@
    } else if text_member(doc, "device"@) is None {
        "device"@
    } else if text_member(doc, "board"@) is None {
        "board"@
    } else if text_member(doc, "model"@) is None {
        "model"@
    } else if text_member(doc, "finger_print"@) is None {
        "finger_print"@
    } else if text_member(doc, "boot_id"@) is None {
        "boot_id"@
    } else if text_member(doc, "proc_version"@) is None {
        "proc_version"@
    } else if text_member(doc, "imei"@) is None {
        "imei"@
    } else if text_member(doc, "brand"@) is None {
        "brand"@
    } else if text_member(doc, "bootloader"@) is None {
        "bootloader"@
    } else if text_member(doc, "base_band"@) is None {
        "base_band"@
    } else if member(doc, "version"@) is None {
        "version"@
    } else if version_member(doc, "version"@) is None {
        version_fault(member(doc, "version"@).unwrap())
    } else if text_member(doc, "sim_info"@) is None {
        "sim_info"@
    } else if text_member(doc, "os_type"@) is None {
        "os_type"@
    } else if text_member(doc, "mac_address"@) is None {
        "mac_address"@
    } else if bytes_member(doc, "ip_address"@) is None {
        "ip_address"@
    } else if text_member(doc, "wifi_bssid"@) is None {
        "wifi_bssid"@
    } else if text_member(doc, "wifi_ssid"@) is None {
        "wifi_ssid"@
    } else if bytes_member(doc, "imsi_md5"@) is None {
        "imsi_md5"@
    } else if text_member(doc, "android_id"@) is None {
        "android_id"@
    } else if text_member(doc, "apn"@) is None {
        "apn"@
    } else if text_member(doc, "vendor_name"@) is None {
        "vendor_name"@
    } else {
        "vendor_os_name"@
    }
}

/// What the error says of a document that is no device or no version: the
/// name of the field at which reading stopped.
pub open spec fn fault_text(key: Seq<char>) -> Seq<char> {
    "missing or mistyped field: "@ + key
}

/// The device that a text describes: the text must be a JSON document, and
/// the document a device.
pub open spec fn device_of_text(text: Seq<char>) -> Option<DeviceView> {
    match parsed(text) {
        Some(doc) => device_of(doc),
        None => None,
    }
}

/// The names of the fields of a firmware version.
pub open spec fn version_keys() -> Set<Seq<char>> {
    set!["incremental"@, "release"@, "codename"@, "sdk"@]
}

/// The names of the fields of a device.
pub open spec fn device_keys() -> Set<Seq<char>> {
    set![
        "display"@,
        "product"@,
        "device"@,
        "board"@,
        "model"@,
        "finger_print"@,
        "boot_id"@,
        "proc_version"@,
        "imei"@,
        "brand"@,
        "bootloader"@,
        "base_band"@,
        "version"@,
        "sim_info"@,
        "os_type"@,
        "mac_address"@,
        "ip_address"@,
        "wifi_bssid"@,
        "wifi_ssid"@,
        "imsi_md5"@,
        "android_id"@,
        "apn"@,
        "vendor_name"@,
        "vendor_os_name"@,
    ]
}

/// Reading inverts writing for byte sequences: the array written for a
/// byte sequence is read back as that sequence.
pub proof fn lemma_bytes_round_trip(data: Seq<u8>)
    ensures
        json_bytes(bytes_json(data)) == Some(data),
{
    let items = data.map_values(|b: u8| byte_json(b));
    assert forall|i: int| 0 <= i < items.len() implies is_byte(#[trigger] items[i]) by {
        assert(items[i] == byte_json(data[i]));
    }
    assert(items.map_values(|item: Json| json_byte(item)) =~= data);
}

/// The names of the fields of a firmware version differ in length.
proof fn lemma_version_key_marks()
    ensures
        "incremental"@.len() == 11,
        "release"@.len() == 7,
        "codename"@.len() == 8,
        "sdk"@.len() == 3,
{
    reveal_strlit("incremental");
    reveal_strlit("release");
    reveal_strlit("codename");
    reveal_strlit("sdk");
}

/// The names of the fields of a device are told apart by their length and
/// their first two characters.
proof fn lemma_device_key_marks()
    ensures
        "display"@.len() == 7 && "display"@[0] == 'd' && "display"@[1] == 'i',
        "product"@.len() == 7 && "product"@[0] == 'p' && "product"@[1] == 'r',
        "device"@.len() == 6 && "device"@[0] == 'd' && "device"@[1] == 'e',
        "board"@.len() == 5 && "board"@[0] == 'b' && "board"@[1] == 'o',
        "model"@.len() == 5 && "model"@[0] == 'm' && "model"@[1] == 'o',
        "finger_print"@.len() == 12 && "finger_print"@[0] == 'f' && "finger_print"@[1] == 'i',
        "boot_id"@.len() == 7 && "boot_id"@[0] == 'b' && "boot_id"@[1] == 'o',
        "proc_version"@.len() == 12 && "proc_version"@[0] == 'p' && "proc_version"@[1] == 'r',
        "imei"@.len() == 4 && "imei"@[0] == 'i' && "imei"@[1] == 'm',
        "brand"@.len() == 5 && "brand"@[0] == 'b' && "brand"@[1] == 'r',
        "bootloader"@.len() == 10 && "bootloader"@[0] == 'b' && "bootloader"@[1] == 'o',
        "base_band"@.len() == 9 && "base_band"@[0] == 'b' && "base_band"@[1] == 'a',
        "version"@.len() == 7 && "version"@[0] == 'v' && "version"@[1] == 'e',
        "sim_info"@.len() == 8 && "sim_info"@[0] == 's' && "sim_info"@[1] == 'i',
        "os_type"@.len() == 7 && "os_type"@[0] == 'o' && "os_type"@[1] == 's',
        "mac_address"@.len() == 11 && "mac_address"@[0] == 'm' && "mac_address"@[1] == 'a',
        "ip_address"@.len() == 10 && "ip_address"@[0] == 'i' && "ip_address"@[1] == 'p',
        "wifi_bssid"@.len() == 10 && "wifi_bssid"@[0] == 'w' && "wifi_bssid"@[1] == 'i',
        "wifi_ssid"@.len() == 9 && "wifi_ssid"@[0] == 'w' && "wifi_ssid"@[1] == 'i',
        "imsi_md5"@.len() == 8 && "imsi_md5"@[0] == 'i' && "imsi_md5"@[1] == 'm',
        "android_id"@.len() == 10 && "android_id"@[0] == 'a' && "android_id"@[1] == 'n',
        "apn"@.len() == 3 && "apn"@[0] == 'a' && "apn"@[1] == 'p',
        "vendor_name"@.len() == 11 && "vendor_name"@[0] == 'v' && "vendor_name"@[1] == 'e',
        "vendor_os_name"@.len() == 14 && "vendor_os_name"@[0] == 'v' && "vendor_os_name"@[1] == 'e',
{
    reveal_strlit("display");
    reveal_strlit("product");
    reveal_strlit("device");
    reveal_strlit("board");
    reveal_strlit("model");
    reveal_strlit("finger_print");
    reveal_strlit("boot_id");
    reveal_strlit("proc_version");
    reveal_strlit("imei");
    reveal_strlit("brand");
    reveal_strlit("bootloader");
    reveal_strlit("base_band");
    reveal_strlit("version");
    reveal_strlit("sim_info");
    reveal_strlit("os_type");
    reveal_strlit("mac_address");
    reveal_strlit("ip_address");
    reveal_strlit("wifi_bssid");
    reveal_strlit("wifi_ssid");
    reveal_strlit("imsi_md5");
    reveal_strlit("android_id");
    reveal_strlit("apn");
    reveal_strlit("vendor_name");
    reveal_strlit("vendor_os_name");
}

/// Reading inverts writing for firmware versions.
pub proof fn lemma_version_round_trip(v: OSVersionView)
    ensures
        version_of(version_json(v)) == Some(v),
{
    lemma_version_key_marks();
}

/// Reading inverts writing for devices: the document written for a device is
/// read back as that device, equal in every field and byte for byte in the
/// two binary fields.
pub proof fn lemma_device_round_trip(d: DeviceView)
    ensures
        device_of(device_json(d)) == Some(d),
{
    lemma_device_key_marks();
    lemma_version_round_trip(d.version);
    lemma_bytes_round_trip(d.ip_address);
    lemma_bytes_round_trip(d.imsi_md5);
}

/// A document that lacks one of the fields of a firmware version is none.
pub proof fn lemma_version_needs_every_field(doc: Json, key: Seq<char>)
    requires
        version_keys().contains(key),
        member(doc, key) is None,
    ensures
        version_of(doc) is None,
{
}

/// A document that lacks one of the fields of a device is no device: nothing
/// is read from it, not even the fields that are there.
pub proof fn lemma_device_needs_every_field(doc: Json, key: Seq<char>)
    requires
        device_keys().contains(key),
        member(doc, key) is None,
    ensures
        device_of(doc) is None,
{
}

/// A document whose API level is anything but a number is no device.
pub proof fn lemma_level_must_be_number(doc: Json, version: Json, level: Json)
    requires
        member(doc, "version"@) == Some(version),
        member(version, "sdk"@) == Some(level),
        !(level is Number),
    ensures
        version_of(version) is None,
        device_of(doc) is None,
{
}

/// Whether a document is what the field of that name holds: a firmware
/// version under `version`, bytes under the names of the two binary fields,
/// a text under every other name.
pub open spec fn fits(key: Seq<char>, found: Json) -> bool {
    if key == "version"@ {
        version_of(found) is Some
    } else if key == "ip_address"@ || key == "imsi_md5"@ {
        json_bytes(found) is Some
    } else {
        json_text(found) is Some
    }
}

/// A document is a device exactly if it has every field of a device, each
/// in its type. So a field that is missing, or that holds a document of
/// another type, leaves no device at all.
pub proof fn lemma_device_iff_every_field_fits(doc: Json)
    ensures
        device_of(doc) is Some <==> forall|key: Seq<char>| #[trigger]
            device_keys().contains(key) ==> member(doc, key) is Some && fits(
                key,
                member(doc, key).unwrap(),
            ),
{
    lemma_device_key_marks();
    if forall|key: Seq<char>| #[trigger]
        device_keys().contains(key) ==> member(doc, key) is Some && fits(
            key,
            member(doc, key).unwrap(),
        ) {
        assert(device_keys().contains("display"@));
        assert(device_keys().contains("product"@));
        assert(device_keys().contains("device"@));
        assert(device_keys().contains("board"@));
        assert(device_keys().contains("model"@));
        assert(device_keys().contains("finger_print"@));
        assert(device_keys().contains("boot_id"@));
        assert(device_keys().contains("proc_version"@));
        assert(device_keys().contains("imei"@));
        assert(device_keys().contains("brand"@));
        assert(device_keys().contains("bootloader"@));
        assert(device_keys().contains("base_band"@));
        assert(device_keys().contains("version"@));
        assert(device_keys().contains("sim_info"@));
        assert(device_keys().contains("os_type"@));
        assert(device_keys().contains("mac_address"@));
        assert(device_keys().contains("ip_address"@));
        assert(device_keys().contains("wifi_bssid"@));
        assert(device_keys().contains("wifi_ssid"@));
        assert(device_keys().contains("imsi_md5"@));
        assert(device_keys().contains("android_id"@));
        assert(device_keys().contains("apn"@));
        assert(device_keys().contains("vendor_name"@));
        assert(device_keys().contains("vendor_os_name"@));
    }
}

} // verus!
