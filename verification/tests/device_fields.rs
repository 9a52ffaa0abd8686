use device_identity::{Device, OSVersion, PBytes, PyDevice, PyOSVersion};

fn engine_version() -> OSVersion {
    OSVersion {
        incremental: "5891938".to_string(),
        release: "10".to_string(),
        codename: "REL".to_string(),
        sdk: 29,
    }
}

fn engine_device() -> Device {
    Device {
        display: "d0".to_string(),
        product: "d1".to_string(),
        device: "d2".to_string(),
        board: "d3".to_string(),
        model: "d4".to_string(),
        finger_print: "d5".to_string(),
        boot_id: "d6".to_string(),
        proc_version: "d7".to_string(),
        imei: "d8".to_string(),
        brand: "d9".to_string(),
        bootloader: "d10".to_string(),
        base_band: "d11".to_string(),
        version: engine_version(),
        sim_info: "d13".to_string(),
        os_type: "d14".to_string(),
        mac_address: "d15".to_string(),
        ip_address: vec![192, 168, 0, 1],
        wifi_bssid: "d17".to_string(),
        wifi_ssid: "d18".to_string(),
        imsi_md5: vec![9, 8, 7, 6, 5, 4, 3, 2, 1, 0, 1, 2, 3, 4, 5, 6],
        android_id: "d20".to_string(),
        apn: "d21".to_string(),
        vendor_name: "d22".to_string(),
        vendor_os_name: "d23".to_string(),
    }
}

fn host_device() -> PyDevice {
    PyDevice::new(
        "d0".to_string(),
        "d1".to_string(),
        "d2".to_string(),
        "d3".to_string(),
        "d4".to_string(),
        "d5".to_string(),
        "d6".to_string(),
        "d7".to_string(),
        "d8".to_string(),
        "d9".to_string(),
        "d10".to_string(),
        "d11".to_string(),
        PyOSVersion {
            incremental: "5891938".to_string(),
            release: "10".to_string(),
            codename: "REL".to_string(),
            sdk: 29,
        },
        "d13".to_string(),
        "d14".to_string(),
        "d15".to_string(),
        &[192, 168, 0, 1],
        "d17".to_string(),
        "d18".to_string(),
        &[9, 8, 7, 6, 5, 4, 3, 2, 1, 0, 1, 2, 3, 4, 5, 6],
        "d20".to_string(),
        "d21".to_string(),
        "d22".to_string(),
        "d23".to_string(),
    )
}

#[test]
fn new_keeps_every_argument_in_its_field() {
    let device = host_device();
    assert_eq!(device.display, "d0");
    assert_eq!(device.product, "d1");
    assert_eq!(device.device, "d2");
    assert_eq!(device.board, "d3");
    assert_eq!(device.model, "d4");
    assert_eq!(device.finger_print, "d5");
    assert_eq!(device.boot_id, "d6");
    assert_eq!(device.proc_version, "d7");
    assert_eq!(device.imei, "d8");
    assert_eq!(device.brand, "d9");
    assert_eq!(device.bootloader, "d10");
    assert_eq!(device.base_band, "d11");
    assert_eq!(device.version.incremental, "5891938");
    assert_eq!(device.version.release, "10");
    assert_eq!(device.version.codename, "REL");
    assert_eq!(device.version.sdk, 29);
    assert_eq!(device.sim_info, "d13");
    assert_eq!(device.os_type, "d14");
    assert_eq!(device.mac_address, "d15");
    assert_eq!(device.ip_address, vec![192, 168, 0, 1]);
    assert_eq!(device.wifi_bssid, "d17");
    assert_eq!(device.wifi_ssid, "d18");
    assert_eq!(
        &device.imsi_md5.0[..],
        &[9u8, 8, 7, 6, 5, 4, 3, 2, 1, 0, 1, 2, 3, 4, 5, 6][..]
    );
    assert_eq!(device.android_id, "d20");
    assert_eq!(device.apn, "d21");
    assert_eq!(device.vendor_name, "d22");
    assert_eq!(device.vendor_os_name, "d23");
}

#[test]
fn new_checks_nothing() {
    let device = PyDevice::new(
        String::new(),
        String::new(),
        String::new(),
        String::new(),
        String::new(),
        String::new(),
        String::new(),
        String::new(),
        "not an imei".to_string(),
        String::new(),
        String::new(),
        String::new(),
        PyOSVersion {
            incremental: String::new(),
            release: String::new(),
            codename: String::new(),
            sdk: 0,
        },
        String::new(),
        String::new(),
        "not a mac".to_string(),
        &[],
        String::new(),
        String::new(),
        &[1, 2, 3],
        String::new(),
        String::new(),
        String::new(),
        String::new(),
    );
    assert_eq!(device.imei, "not an imei");
    assert_eq!(device.mac_address, "not a mac");
    assert!(device.ip_address.is_empty());
    assert_eq!(&device.imsi_md5.0[..], &[1u8, 2, 3][..]);
    assert_eq!(device.version.sdk, 0);
}

#[test]
fn new_copies_the_byte_slices() {
    let mut address = vec![10u8, 0, 1, 3];
    let mut digest = vec![7u8; 16];
    let device = {
        let base = host_device();
        PyDevice::new(
            base.display,
            base.product,
            base.device,
            base.board,
            base.model,
            base.finger_print,
            base.boot_id,
            base.proc_version,
            base.imei,
            base.brand,
            base.bootloader,
            base.base_band,
            base.version,
            base.sim_info,
            base.os_type,
            base.mac_address,
            &address,
            base.wifi_bssid,
            base.wifi_ssid,
            &digest,
            base.android_id,
            base.apn,
            base.vendor_name,
            base.vendor_os_name,
        )
    };
    address[0] = 99;
    address.push(1);
    digest[15] = 0;
    digest.clear();
    assert_eq!(device.ip_address, vec![10, 0, 1, 3]);
    assert_eq!(&device.imsi_md5.0[..], &[7u8; 16][..]);
}

#[test]
fn host_device_from_engine_device_keeps_every_field() {
    assert_eq!(PyDevice::from(engine_device()), host_device());
}

#[test]
fn engine_device_from_host_device_keeps_every_field() {
    assert_eq!(Device::from(host_device()), engine_device());
}

#[test]
fn device_conversions_invert_each_other() {
    assert_eq!(Device::from(PyDevice::from(engine_device())), engine_device());
    assert_eq!(PyDevice::from(Device::from(host_device())), host_device());
    let device: PyDevice = engine_device().into();
    assert_eq!(device, host_device());
}

#[test]
fn version_conversions_keep_every_field() {
    let host = PyOSVersion::from(engine_version());
    assert_eq!(host.incremental, "5891938");
    assert_eq!(host.release, "10");
    assert_eq!(host.codename, "REL");
    assert_eq!(host.sdk, 29);
    assert_eq!(OSVersion::from(host), engine_version());
}

#[test]
fn version_default_is_empty() {
    let version = PyOSVersion::default();
    assert_eq!(version.incremental, "");
    assert_eq!(version.release, "");
    assert_eq!(version.codename, "");
    assert_eq!(version.sdk, 0);
}

#[test]
fn clone_keeps_every_field() {
    assert_eq!(host_device().clone(), host_device());
    assert_eq!(engine_device().clone(), engine_device());
    assert_eq!(engine_version().clone(), engine_version());
}

#[test]
fn clone_is_independent_of_its_source() {
    let mut device = host_device();
    let copy = device.clone();
    device.ip_address[0] = 0;
    device.imsi_md5 = PBytes::from_vec(vec![]);
    device.imei.push('0');
    assert_eq!(copy, host_device());
}

#[test]
fn buffer_default_is_empty() {
    assert!(PBytes::default().0.is_empty());
    assert!(PBytes::default().to_vec().is_empty());
}

#[test]
fn buffer_keeps_its_bytes() {
    let data = vec![0u8, 1, 254, 255];
    assert_eq!(PBytes::from_vec(data.clone()).to_vec(), data);
    assert_eq!(PBytes::copy_from_slice(&data).to_vec(), data);
    assert_eq!(&PBytes::copy_from_slice(&data).0[..], &data[..]);
    assert_eq!(PBytes::from_vec(data.clone()).clone().to_vec(), data);
    assert!(PBytes::copy_from_slice(&[]).to_vec().is_empty());
}

#[test]
fn buffer_copy_is_independent_of_its_source() {
    let mut data = vec![1u8, 2, 3];
    let buffer = PBytes::copy_from_slice(&data);
    data[0] = 9;
    data.truncate(1);
    assert_eq!(buffer.to_vec(), vec![1, 2, 3]);
    let mut copy = buffer.to_vec();
    copy[1] = 0;
    assert_eq!(buffer.to_vec(), vec![1, 2, 3]);
}
