use device_identity::{Device, DeviceError, OSVersion};
use serde_json::Value;

fn version_for_values() -> OSVersion {
    OSVersion {
        incremental: "5891938".to_string(),
        release: "10".to_string(),
        codename: "REL".to_string(),
        sdk: 29,
    }
}

fn device_for_values() -> Device {
    Device {
        display: "a".to_string(),
        product: "b".to_string(),
        device: "c".to_string(),
        board: "d".to_string(),
        model: "e".to_string(),
        finger_print: "f".to_string(),
        boot_id: "g".to_string(),
        proc_version: "h".to_string(),
        imei: "i".to_string(),
        brand: "j".to_string(),
        bootloader: "k".to_string(),
        base_band: "l".to_string(),
        version: version_for_values(),
        sim_info: "m".to_string(),
        os_type: "n".to_string(),
        mac_address: "o".to_string(),
        ip_address: vec![127, 0, 0, 1],
        wifi_bssid: "p".to_string(),
        wifi_ssid: "q".to_string(),
        imsi_md5: vec![255, 0],
        android_id: "r".to_string(),
        apn: "s".to_string(),
        vendor_name: "t".to_string(),
        vendor_os_name: "u".to_string(),
    }
}

fn value_of(text: &str) -> Value {
    serde_json::from_str(text).unwrap()
}

#[test]
fn version_to_value_is_an_object_of_four_fields() {
    let doc = version_for_values().to_value();
    assert_eq!(
        doc,
        value_of("{\"incremental\":\"5891938\",\"release\":\"10\",\"codename\":\"REL\",\"sdk\":29}")
    );
    assert_eq!(doc.as_object().unwrap().len(), 4);
    assert_eq!(doc.get("sdk").unwrap().as_u64(), Some(29));
}

#[test]
fn version_from_value_reads_the_four_fields() {
    let doc = value_of("{\"sdk\":30,\"codename\":\"S\",\"release\":\"11\",\"incremental\":\"x\",\"extra\":1}");
    let version = OSVersion::from_value(&doc).unwrap();
    assert_eq!(version.incremental, "x");
    assert_eq!(version.release, "11");
    assert_eq!(version.codename, "S");
    assert_eq!(version.sdk, 30);
}

#[test]
fn version_from_value_rejects_other_documents() {
    for text in [
        "null",
        "[]",
        "{}",
        "{\"incremental\":\"x\",\"release\":\"11\",\"codename\":\"S\"}",
        "{\"incremental\":\"x\",\"release\":\"11\",\"codename\":\"S\",\"sdk\":\"30\"}",
        "{\"incremental\":\"x\",\"release\":11,\"codename\":\"S\",\"sdk\":30}",
        "{\"incremental\":\"x\",\"release\":\"11\",\"codename\":\"S\",\"sdk\":-30}",
    ] {
        assert!(matches!(
            OSVersion::from_value(&value_of(text)),
            Err(DeviceError::MalformedInput(_))
        ));
    }
}

#[test]
fn device_to_value_holds_every_field() {
    let doc = device_for_values().to_value();
    let members = doc.as_object().unwrap();
    assert_eq!(members.len(), 24);
    assert_eq!(doc.get("display"), Some(&Value::String("a".to_string())));
    assert_eq!(doc.get("vendor_os_name"), Some(&Value::String("u".to_string())));
    assert_eq!(doc.get("ip_address"), Some(&value_of("[127,0,0,1]")));
    assert_eq!(doc.get("imsi_md5"), Some(&value_of("[255,0]")));
    assert_eq!(doc.get("version"), Some(&version_for_values().to_value()));
    for (key, value) in members {
        if key != "version" && key != "ip_address" && key != "imsi_md5" {
            assert!(value.is_string(), "{} is no string", key);
        }
    }
}

#[test]
fn device_from_value_inverts_to_value() {
    let device = device_for_values();
    assert_eq!(Device::from_value(&device.to_value()).unwrap(), device);
}

#[test]
fn device_from_value_rejects_document_without_a_field() {
    let mut doc = device_for_values().to_value();
    doc.as_object_mut().unwrap().remove("apn");
    assert_eq!(
        Device::from_value(&doc),
        Err(DeviceError::MalformedInput(
            "missing or mistyped field: apn".to_string()
        ))
    );
}

#[test]
fn device_from_value_rejects_mistyped_api_level() {
    let mut doc = device_for_values().to_value();
    doc["version"]["sdk"] = Value::String("29".to_string());
    assert_eq!(
        Device::from_value(&doc),
        Err(DeviceError::MalformedInput(
            "missing or mistyped field: sdk".to_string()
        ))
    );
}

#[test]
fn device_from_value_rejects_byte_out_of_range() {
    let mut doc = device_for_values().to_value();
    doc["imsi_md5"] = value_of("[0,256]");
    assert!(matches!(
        Device::from_value(&doc),
        Err(DeviceError::MalformedInput(_))
    ));
    doc["imsi_md5"] = value_of("[0,255]");
    assert_eq!(Device::from_value(&doc).unwrap().imsi_md5, vec![0, 255]);
}

#[test]
fn device_from_value_rejects_values_that_are_no_object() {
    for text in ["null", "true", "1", "\"x\"", "[1]"] {
        assert!(matches!(
            Device::from_value(&value_of(text)),
            Err(DeviceError::MalformedInput(_))
        ));
    }
}
