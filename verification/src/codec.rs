use vstd::prelude::*;
use serde_json::Value;
use crate::device::{Device, OSVersion, PyDevice};
use crate::error::DeviceError;
use crate::json::{
    json_of, jsons_of, members_insert, members_new, members_of, parse_error_text, parse_text,
    parsed, print_value, printed, value_as_array, value_as_str, value_as_u64, value_from_array,
    value_from_members, value_from_string, value_from_u64, value_get, Json, Members,
};
use crate::schema::{
    byte_json, bytes_json, bytes_member, device_fault, device_json, device_of, device_of_text,
    fault_text, is_byte, json_byte, lemma_device_round_trip, level_member, member, text_member,
    version_fault, version_json, version_of,
};

verus! {

/// The error for a document that lacks a field or has it in another type.
fn malformed(key: &str) -> (r: DeviceError)
    ensures
        r matches DeviceError::MalformedInput(text) && text@ == fault_text(key@),
{
    DeviceError::MalformedInput(String::from_str("missing or mistyped field: ").concat(key))
}

/// Reads the text under a key.
fn read_text(doc: &Value, key: &str) -> (r: Option<String>)
    ensures
        match text_member(json_of(*doc), key@) {
            Some(s) => r is Some && r.unwrap()@ == s,
            None => r is None,
        },
{
    match value_get(doc, key) {
        Some(m) => match value_as_str(m) {
            Some(s) => Some(String::from_str(s)),
            None => None,
        },
        None => None,
    }
}

/// Reads the API level under a key.
fn read_level(doc: &Value, key: &str) -> (r: Option<u32>)
    ensures
        r == level_member(json_of(*doc), key@),
{
    match value_get(doc, key) {
        Some(m) => match value_as_u64(m) {
            Some(n) => if n <= 0xffff_ffff {
                Some(n as u32)
            } else {
                None
            },
            None => None,
        },
        None => None,
    }
}

/// Reads the bytes under a key.
fn read_bytes(doc: &Value, key: &str) -> (r: Option<Vec<u8>>)
    ensures
        match bytes_member(json_of(*doc), key@) {
            Some(data) => r is Some && r.unwrap()@ == data,
            None => r is None,
        },
{
    let items = match value_get(doc, key) {
        Some(m) => match value_as_array(m) {
            Some(items) => items,
            None => {
                return None;
            },
        },
        None => {
            return None;
        },
    };
    let ghost docs = jsons_of(items@);
    let mut data: Vec<u8> = Vec::new();
    let mut i: usize = 0;
    while i < items.len()
        invariant
            i <= items.len(),
            docs == jsons_of(items@),
            member(json_of(*doc), key@) == Some(Json::Array(docs)),
            data@.len() == i,
            forall|k: int| 0 <= k < i ==> is_byte(#[trigger] docs[k]) && data@[k] == json_byte(docs[k]),
        decreases items.len() - i,
    {
        match value_as_u64(&items[i]) {
            Some(n) => {
                if n <= 255 {
                    data.push(n as u8);
                } else {
                    assert(!is_byte(docs[i as int]));
                    return None;
                }
            },
            None => {
                assert(!is_byte(docs[i as int]));
                return None;
            },
        }
        i += 1;
    }
    assert(data@ =~= docs.map_values(|item: Json| json_byte(item)));
    Some(data)
}

/// Writes bytes as an array of numbers.
fn write_bytes(data: &Vec<u8>) -> (r: Value)
    ensures
        json_of(r) == bytes_json(data@),
{
    let mut items: Vec<Value> = Vec::new();
    let mut i: usize = 0;
    while i < data.len()
        invariant
            i <= data.len(),
            items@.len() == i,
            forall|k: int| 0 <= k < i ==> json_of(#[trigger] items@[k]) == byte_json(data@[k]),
        decreases data.len() - i,
    {
        items.push(value_from_u64(data[i] as u64));
        i += 1;
    }
    assert(jsons_of(items@) =~= data@.map_values(|b: u8| byte_json(b)));
    value_from_array(items)
}

/// Puts a text under a key.
fn put_text(members: &mut Members, key: &str, text: &String)
    ensures
        members_of(*final(members)) == members_of(*old(members)).insert(key@, Json::Text(text@)),
{
    members_insert(members, String::from_str(key), value_from_string(text.clone()));
}

/// Puts bytes under a key, as an array of numbers.
fn put_bytes(members: &mut Members, key: &str, data: &Vec<u8>)
    ensures
        members_of(*final(members)) == members_of(*old(members)).insert(key@, bytes_json(data@)),
{
    members_insert(members, String::from_str(key), write_bytes(data));
}

impl OSVersion {
    /// The version as a JSON value: an object with the four fields.
    pub fn to_value(&self) -> (r: Value)
        ensures
            json_of(r) == version_json(self@),
    {
        let mut members = members_new();
        put_text(&mut members, "incremental", &self.incremental);
        put_text(&mut members, "release", &self.release);
        put_text(&mut members, "codename", &self.codename);
        members_insert(&mut members, String::from_str("sdk"), value_from_u64(self.sdk as u64));
        value_from_members(members)
    }

    /// Reads a version from a JSON value. Succeeds exactly on an object that
    /// has the four fields in their types; otherwise the input is malformed.
    pub fn from_value(doc: &Value) -> (r: Result<OSVersion, DeviceError>)
        ensures
            match version_of(json_of(*doc)) {
                Some(view) => r is Ok && r.unwrap()@ == view,
                None => r matches Err(DeviceError::MalformedInput(text)) && text@ == fault_text(
                    version_fault(json_of(*doc)),
                ),
            },
    {
        let incremental = match read_text(doc, "incremental") {
            Some(x) => x,
            None => {
                return Err(malformed("incremental"));
            },
        };
        let release = match read_text(doc, "release") {
            Some(x) => x,
            None => {
                return Err(malformed("release"));
            },
        };
        let codename = match read_text(doc, "codename") {
            Some(x) => x,
            None => {
                return Err(malformed("codename"));
            },
        };
        let sdk = match read_level(doc, "sdk") {
            Some(x) => x,
            None => {
                return Err(malformed("sdk"));
            },
        };
        Ok(OSVersion { incremental, release, codename, sdk })
    }
}

impl Device {
    /// The device as a JSON value: one object with every field under its
    /// name.
    pub fn to_value(&self) -> (r: Value)
        ensures
            json_of(r) == device_json(self@),
    {
        let mut members = members_new();
        put_text(&mut members, "display", &self.display);
        put_text(&mut members, "product", &self.product);
        put_text(&mut members, "device", &self.device);
        put_text(&mut members, "board", &self.board);
        put_text(&mut members, "model", &self.model);
        put_text(&mut members, "finger_print", &self.finger_print);
        put_text(&mut members, "boot_id", &self.boot_id);
        put_text(&mut members, "proc_version", &self.proc_version);
        put_text(&mut members, "imei", &self.imei);
        put_text(&mut members, "brand", &self.brand);
        put_text(&mut members, "bootloader", &self.bootloader);
        put_text(&mut members, "base_band", &self.base_band);
        members_insert(&mut members, String::from_str("version"), self.version.to_value());
        put_text(&mut members, "sim_info", &self.sim_info);
        put_text(&mut members, "os_type", &self.os_type);
        put_text(&mut members, "mac_address", &self.mac_address);
        put_bytes(&mut members, "ip_address", &self.ip_address);
        put_text(&mut members, "wifi_bssid", &self.wifi_bssid);
        put_text(&mut members, "wifi_ssid", &self.wifi_ssid);
        put_bytes(&mut members, "imsi_md5", &self.imsi_md5);
        put_text(&mut members, "android_id", &self.android_id);
        put_text(&mut members, "apn", &self.apn);
        put_text(&mut members, "vendor_name", &self.vendor_name);
        put_text(&mut members, "vendor_os_name", &self.vendor_os_name);
        value_from_members(members)
    }

    /// Reads a device from a JSON value. Succeeds exactly on an object that
    /// has every field of a device in its type; otherwise the input is
    /// malformed, and no device comes back.
    pub fn from_value(doc: &Value) -> (r: Result<Device, DeviceError>)
        ensures
            match device_of(json_of(*doc)) {
                Some(view) => r is Ok && r.unwrap()@ == view,
                None => r matches Err(DeviceError::MalformedInput(text)) && text@ == fault_text(
                    device_fault(json_of(*doc)),
                ),
            },
    {
        let display = match read_text(doc, "display") {
            Some(x) => x,
            None => {
                return Err(malformed("display"));
            },
        };
        let product = match read_text(doc, "product") {
            Some(x) => x,
            None => {
                return Err(malformed("product"));
            },
        };
        let device = match read_text(doc, "device") {
            Some(x) => x,
            None => {
                return Err(malformed("device"));
            },
        };
        let board = match read_text(doc, "board") {
            Some(x) => x,
            None => {
                return Err(malformed("board"));
            },
        };
        let model = match read_text(doc, "model") {
            Some(x) => x,
            None => {
                return Err(malformed("model"));
            },
        };
        let finger_print = match read_text(doc, "finger_print") {
            Some(x) => x,
            None => {
                return Err(malformed("finger_print"));
            },
        };
        let boot_id = match read_text(doc, "boot_id") {
            Some(x) => x,
            None => {
                return Err(malformed("boot_id"));
            },
        };
        let proc_version = match read_text(doc, "proc_version") {
            Some(x) => x,
            None => {
                return Err(malformed("proc_version"));
            },
        };
        let imei = match read_text(doc, "imei") {
            Some(x) => x,
            None => {
                return Err(malformed("imei"));
            },
        };
        let brand = match read_text(doc, "brand") {
            Some(x) => x,
            None => {
                return Err(malformed("brand"));
            },
        };
        let bootloader = match read_text(doc, "bootloader") {
            Some(x) => x,
            None => {
                return Err(malformed("bootloader"));
            },
        };
        let base_band = match read_text(doc, "base_band") {
            Some(x) => x,
            None => {
                return Err(malformed("base_band"));
            },
        };
        let version = match value_get(doc, "version") {
            Some(m) => match OSVersion::from_value(m) {
                Ok(x) => x,
                Err(e) => {
                    return Err(e);
                },
            },
            None => {
                return Err(malformed("version"));
            },
        };
        let sim_info = match read_text(doc, "sim_info") {
            Some(x) => x,
            None => {
                return Err(malformed("sim_info"));
            },
        };
        let os_type = match read_text(doc, "os_type") {
            Some(x) => x,
            None => {
                return Err(malformed("os_type"));
            },
        };
        let mac_address = match read_text(doc, "mac_address") {
            Some(x) => x,
            None => {
                return Err(malformed("mac_address"));
            },
        };
        let ip_address = match read_bytes(doc, "ip_address") {
            Some(x) => x,
            None => {
                return Err(malformed("ip_address"));
            },
        };
        let wifi_bssid = match read_text(doc, "wifi_bssid") {
            Some(x) => x,
            None => {
                return Err(malformed("wifi_bssid"));
            },
        };
        let wifi_ssid = match read_text(doc, "wifi_ssid") {
            Some(x) => x,
            None => {
                return Err(malformed("wifi_ssid"));
            },
        };
        let imsi_md5 = match read_bytes(doc, "imsi_md5") {
            Some(x) => x,
            None => {
                return Err(malformed("imsi_md5"));
            },
        };
        let android_id = match read_text(doc, "android_id") {
            Some(x) => x,
            None => {
                return Err(malformed("android_id"));
            },
        };
        let apn = match read_text(doc, "apn") {
            Some(x) => x,
            None => {
                return Err(malformed("apn"));
            },
        };
        let vendor_name = match read_text(doc, "vendor_name") {
            Some(x) => x,
            None => {
                return Err(malformed("vendor_name"));
            },
        };
        let vendor_os_name = match read_text(doc, "vendor_os_name") {
            Some(x) => x,
            None => {
                return Err(malformed("vendor_os_name"));
            },
        };
        Ok(
            Device {
                display,
                product,
                device,
                board,
                model,
                finger_print,
                boot_id,
                proc_version,
                imei,
                brand,
                bootloader,
                base_band,
                version,
                sim_info,
                os_type,
                mac_address,
                ip_address,
                wifi_bssid,
                wifi_ssid,
                imsi_md5,
                android_id,
                apn,
                vendor_name,
                vendor_os_name,
            },
        )
    }
}

impl PyDevice {
    /// The device as JSON text: the compact text of the document for the
    /// device. Where that text is read as the document it was written from,
    /// it is read back as this device.
    pub fn to_str(&self) -> (r: String)
        ensures
            r@ == printed(device_json(self@)),
            parsed(r@) == Some(device_json(self@)) ==> device_of_text(r@) == Some(self@),
    {
        let device = Device::from(self.clone());
        let doc = device.to_value();
        proof {
            lemma_device_round_trip(self@);
        }
        print_value(&doc)
    }

    /// Reads a device from JSON text. Succeeds exactly where the text is a
    /// JSON document and the document a device; otherwise the input is
    /// malformed, and no device comes back.
    pub fn from_str(s: &str) -> (r: Result<PyDevice, DeviceError>)
        ensures
            match parsed(s@) {
                Some(doc) => match device_of(doc) {
                    Some(view) => r is Ok && r.unwrap()@ == view,
                    None => r matches Err(DeviceError::MalformedInput(text)) && text@
                        == fault_text(device_fault(doc)),
                },
                None => r matches Err(DeviceError::MalformedInput(_)),
            },
    {
        match parse_text(s) {
            Ok(doc) => match Device::from_value(&doc) {
                Ok(device) => Ok(PyDevice::from(device)),
                Err(e) => Err(e),
            },
            Err(e) => Err(DeviceError::MalformedInput(parse_error_text(&e))),
        }
    }
}

} // verus!
