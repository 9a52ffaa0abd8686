use vstd::prelude::*;
use vstd::slice::slice_to_vec;
use vstd::std_specs::convert::FromSpecImpl;
use pyo3::PyAny;
use pyo3::Python;
use crate::error::DeviceError;
use crate::pbytes::{host_bytes, PBytes};

verus! {

/// What a firmware version is in contracts.
pub struct OSVersionView {
    pub incremental: Seq<char>,
    pub release: Seq<char>,
    pub codename: Seq<char>,
    pub sdk: u32,
}

/// What a device is in contracts: every field by its characters or bytes.
/// Both forms of a device, the engine's and the host's, have this view.
pub struct DeviceView {
    pub display: Seq<char>,
    pub product: Seq<char>,
    pub device: Seq<char>,
    pub board: Seq<char>,
    pub model: Seq<char>,
    pub finger_print: Seq<char>,
    pub boot_id: Seq<char>,
    pub proc_version: Seq<char>,
    pub imei: Seq<char>,
    pub brand: Seq<char>,
    pub bootloader: Seq<char>,
    pub base_band: Seq<char>,
    pub version: OSVersionView,
    pub sim_info: Seq<char>,
    pub os_type: Seq<char>,
    pub mac_address: Seq<char>,
    pub ip_address: Seq<u8>,
    pub wifi_bssid: Seq<char>,
    pub wifi_ssid: Seq<char>,
    pub imsi_md5: Seq<u8>,
    pub android_id: Seq<char>,
    pub apn: Seq<char>,
    pub vendor_name: Seq<char>,
    pub vendor_os_name: Seq<char>,
}

/// Firmware version of a device, as the protocol engine holds it.
#[derive(Debug, PartialEq, Eq)]
pub struct OSVersion {
    /// Build increment.
    pub incremental: String,
    /// Version as users know it.
    pub release: String,
    /// Code name of the build.
    pub codename: String,
    /// API level.
    pub sdk: u32,
}

/// Firmware version of a device, as the host sees it.
#[derive(Debug, PartialEq, Eq)]
pub struct PyOSVersion {
    /// Build increment.
    pub incremental: String,
    /// Version as users know it.
    pub release: String,
    /// Code name of the build.
    pub codename: String,
    /// API level.
    pub sdk: u32,
}

/// The identity of a device as the protocol engine holds it: both binary
/// fields are plain vectors.
#[derive(Debug, PartialEq, Eq)]
pub struct Device {
    /// Build display string.
    pub display: String,
    /// Product name.
    pub product: String,
    /// Device code name.
    pub device: String,
    /// Board name.
    pub board: String,
    /// Model name.
    pub model: String,
    /// Build fingerprint.
    pub finger_print: String,
    /// Identifier of the current boot.
    pub boot_id: String,
    /// Kernel version line.
    pub proc_version: String,
    /// Equipment identity number.
    pub imei: String,
    /// Brand name.
    pub brand: String,
    /// Bootloader name.
    pub bootloader: String,
    /// Baseband version.
    pub base_band: String,
    /// Firmware version.
    pub version: OSVersion,
    /// Operator of the SIM card.
    pub sim_info: String,
    /// Kind of operating system.
    pub os_type: String,
    /// Hardware address, in text.
    pub mac_address: String,
    /// Network address, as raw octets.
    pub ip_address: Vec<u8>,
    /// Identifier of the wireless access point.
    pub wifi_bssid: String,
    /// Name of the wireless network.
    pub wifi_ssid: String,
    /// Digest of the subscriber identity.
    pub imsi_md5: Vec<u8>,
    /// Identifier of the installation.
    pub android_id: String,
    /// Access point name.
    pub apn: String,
    /// Vendor name.
    pub vendor_name: String,
    /// Name of the vendor's system.
    pub vendor_os_name: String,
}

/// The identity of a device as the host sees it: the digest is a buffer that
/// can cross to the host.
#[derive(Debug, PartialEq, Eq)]
pub struct PyDevice {
    /// Build display string.
    pub display: String,
    /// Product name.
    pub product: String,
    /// Device code name.
    pub device: String,
    /// Board name.
    pub board: String,
    /// Model name.
    pub model: String,
    /// Build fingerprint.
    pub finger_print: String,
    /// Identifier of the current boot.
    pub boot_id: String,
    /// Kernel version line.
    pub proc_version: String,
    /// Equipment identity number.
    pub imei: String,
    /// Brand name.
    pub brand: String,
    /// Bootloader name.
    pub bootloader: String,
    /// Baseband version.
    pub base_band: String,
    /// Firmware version.
    pub version: PyOSVersion,
    /// Operator of the SIM card.
    pub sim_info: String,
    /// Kind of operating system.
    pub os_type: String,
    /// Hardware address, in text.
    pub mac_address: String,
    /// Network address, as raw octets.
    pub ip_address: Vec<u8>,
    /// Identifier of the wireless access point.
    pub wifi_bssid: String,
    /// Name of the wireless network.
    pub wifi_ssid: String,
    /// Digest of the subscriber identity.
    pub imsi_md5: PBytes,
    /// Identifier of the installation.
    pub android_id: String,
    /// Access point name.
    pub apn: String,
    /// Vendor name.
    pub vendor_name: String,
    /// Name of the vendor's system.
    pub vendor_os_name: String,
}

impl View for OSVersion {
    type V = OSVersionView;

    open spec fn view(&self) -> OSVersionView {
        OSVersionView {
            incremental: self.incremental@,
            release: self.release@,
            codename: self.codename@,
            sdk: self.sdk,
        }
    }
}

impl Clone for OSVersion {
    fn clone(&self) -> (r: OSVersion)
        ensures
            r@ == self@,
    {
        OSVersion {
            incremental: self.incremental.clone(),
            release: self.release.clone(),
            codename: self.codename.clone(),
            sdk: self.sdk,
        }
    }
}

impl Default for PyOSVersion {
    /// The version with nothing set: empty texts and API level 0.
    fn default() -> (r: PyOSVersion)
        ensures
            r@ == (OSVersionView {
                incremental: Seq::empty(),
                release: Seq::empty(),
                codename: Seq::empty(),
                sdk: 0,
            }),
    {
        PyOSVersion {
            incremental: String::new(),
            release: String::new(),
            codename: String::new(),
            sdk: 0,
        }
    }
}

impl View for PyOSVersion {
    type V = OSVersionView;

    open spec fn view(&self) -> OSVersionView {
        OSVersionView {
            incremental: self.incremental@,
            release: self.release@,
            codename: self.codename@,
            sdk: self.sdk,
        }
    }
}

impl Clone for PyOSVersion {
    fn clone(&self) -> (r: PyOSVersion)
        ensures
            r@ == self@,
    {
        PyOSVersion {
            incremental: self.incremental.clone(),
            release: self.release.clone(),
            codename: self.codename.clone(),
            sdk: self.sdk,
        }
    }
}

impl View for Device {
    type V = DeviceView;

    open spec fn view(&self) -> DeviceView {
        DeviceView {
            display: self.display@,
            product: self.product@,
            device: self.device@,
            board: self.board@,
            model: self.model@,
            finger_print: self.finger_print@,
            boot_id: self.boot_id@,
            proc_version: self.proc_version@,
            imei: self.imei@,
            brand: self.brand@,
            bootloader: self.bootloader@,
            base_band: self.base_band@,
            version: self.version@,
            sim_info: self.sim_info@,
            os_type: self.os_type@,
            mac_address: self.mac_address@,
            ip_address: self.ip_address@,
            wifi_bssid: self.wifi_bssid@,
            wifi_ssid: self.wifi_ssid@,
            imsi_md5: self.imsi_md5@,
            android_id: self.android_id@,
            apn: self.apn@,
            vendor_name: self.vendor_name@,
            vendor_os_name: self.vendor_os_name@,
        }
    }
}

impl Clone for Device {
    fn clone(&self) -> (r: Device)
        ensures
            r@ == self@,
    {
        Device {
            display: self.display.clone(),
            product: self.product.clone(),
            device: self.device.clone(),
            board: self.board.clone(),
            model: self.model.clone(),
            finger_print: self.finger_print.clone(),
            boot_id: self.boot_id.clone(),
            proc_version: self.proc_version.clone(),
            imei: self.imei.clone(),
            brand: self.brand.clone(),
            bootloader: self.bootloader.clone(),
            base_band: self.base_band.clone(),
            version: self.version.clone(),
            sim_info: self.sim_info.clone(),
            os_type: self.os_type.clone(),
            mac_address: self.mac_address.clone(),
            ip_address: self.ip_address.clone(),
            wifi_bssid: self.wifi_bssid.clone(),
            wifi_ssid: self.wifi_ssid.clone(),
            imsi_md5: self.imsi_md5.clone(),
            android_id: self.android_id.clone(),
            apn: self.apn.clone(),
            vendor_name: self.vendor_name.clone(),
            vendor_os_name: self.vendor_os_name.clone(),
        }
    }
}

impl View for PyDevice {
    type V = DeviceView;

    open spec fn view(&self) -> DeviceView {
        DeviceView {
            display: self.display@,
            product: self.product@,
            device: self.device@,
            board: self.board@,
            model: self.model@,
            finger_print: self.finger_print@,
            boot_id: self.boot_id@,
            proc_version: self.proc_version@,
            imei: self.imei@,
            brand: self.brand@,
            bootloader: self.bootloader@,
            base_band: self.base_band@,
            version: self.version@,
            sim_info: self.sim_info@,
            os_type: self.os_type@,
            mac_address: self.mac_address@,
            ip_address: self.ip_address@,
            wifi_bssid: self.wifi_bssid@,
            wifi_ssid: self.wifi_ssid@,
            imsi_md5: self.imsi_md5@,
            android_id: self.android_id@,
            apn: self.apn@,
            vendor_name: self.vendor_name@,
            vendor_os_name: self.vendor_os_name@,
        }
    }
}

impl Clone for PyDevice {
    fn clone(&self) -> (r: PyDevice)
        ensures
            r@ == self@,
    {
        PyDevice {
            display: self.display.clone(),
            product: self.product.clone(),
            device: self.device.clone(),
            board: self.board.clone(),
            model: self.model.clone(),
            finger_print: self.finger_print.clone(),
            boot_id: self.boot_id.clone(),
            proc_version: self.proc_version.clone(),
            imei: self.imei.clone(),
            brand: self.brand.clone(),
            bootloader: self.bootloader.clone(),
            base_band: self.base_band.clone(),
            version: self.version.clone(),
            sim_info: self.sim_info.clone(),
            os_type: self.os_type.clone(),
            mac_address: self.mac_address.clone(),
            ip_address: self.ip_address.clone(),
            wifi_bssid: self.wifi_bssid.clone(),
            wifi_ssid: self.wifi_ssid.clone(),
            imsi_md5: self.imsi_md5.clone(),
            android_id: self.android_id.clone(),
            apn: self.apn.clone(),
            vendor_name: self.vendor_name.clone(),
            vendor_os_name: self.vendor_os_name.clone(),
        }
    }
}

impl From<OSVersion> for PyOSVersion {
    fn from(v: OSVersion) -> (r: PyOSVersion)
        ensures
            r@ == v@,
    {
        PyOSVersion {
            incremental: v.incremental,
            release: v.release,
            codename: v.codename,
            sdk: v.sdk,
        }
    }
}

impl FromSpecImpl<OSVersion> for PyOSVersion {
    open spec fn obeys_from_spec() -> bool {
        true
    }

    open spec fn from_spec(v: OSVersion) -> PyOSVersion {
        PyOSVersion {
            incremental: v.incremental,
            release: v.release,
            codename: v.codename,
            sdk: v.sdk,
        }
    }
}

impl From<PyOSVersion> for OSVersion {
    fn from(v: PyOSVersion) -> (r: OSVersion)
        ensures
            r@ == v@,
    {
        OSVersion {
            incremental: v.incremental,
            release: v.release,
            codename: v.codename,
            sdk: v.sdk,
        }
    }
}

impl FromSpecImpl<PyOSVersion> for OSVersion {
    open spec fn obeys_from_spec() -> bool {
        true
    }

    open spec fn from_spec(v: PyOSVersion) -> OSVersion {
        OSVersion {
            incremental: v.incremental,
            release: v.release,
            codename: v.codename,
            sdk: v.sdk,
        }
    }
}

impl From<Device> for PyDevice {
    /// Every field goes over as it is; the digest changes its container and
    /// keeps its bytes.
    fn from(d: Device) -> (r: PyDevice)
        ensures
            r@ == d@,
    {
        PyDevice {
            display: d.display,
            product: d.product,
            device: d.device,
            board: d.board,
            model: d.model,
            finger_print: d.finger_print,
            boot_id: d.boot_id,
            proc_version: d.proc_version,
            imei: d.imei,
            brand: d.brand,
            bootloader: d.bootloader,
            base_band: d.base_band,
            version: d.version.into(),
            sim_info: d.sim_info,
            os_type: d.os_type,
            mac_address: d.mac_address,
            ip_address: d.ip_address,
            wifi_bssid: d.wifi_bssid,
            wifi_ssid: d.wifi_ssid,
            imsi_md5: PBytes::from_vec(d.imsi_md5),
            android_id: d.android_id,
            apn: d.apn,
            vendor_name: d.vendor_name,
            vendor_os_name: d.vendor_os_name,
        }
    }
}

/// A buffer is known by its bytes alone, so the conversion is fixed up to
/// the view: `from_spec` picks one value with the view of the source.
impl FromSpecImpl<Device> for PyDevice {
    open spec fn obeys_from_spec() -> bool {
        false
    }

    open spec fn from_spec(d: Device) -> PyDevice {
        choose|r: PyDevice| r@ == d@
    }
}

impl From<PyDevice> for Device {
    /// Every field goes over as it is; the digest changes its container and
    /// keeps its bytes.
    fn from(d: PyDevice) -> (r: Device)
        ensures
            r@ == d@,
    {
        Device {
            display: d.display,
            product: d.product,
            device: d.device,
            board: d.board,
            model: d.model,
            finger_print: d.finger_print,
            boot_id: d.boot_id,
            proc_version: d.proc_version,
            imei: d.imei,
            brand: d.brand,
            bootloader: d.bootloader,
            base_band: d.base_band,
            version: d.version.into(),
            sim_info: d.sim_info,
            os_type: d.os_type,
            mac_address: d.mac_address,
            ip_address: d.ip_address,
            wifi_bssid: d.wifi_bssid,
            wifi_ssid: d.wifi_ssid,
            imsi_md5: d.imsi_md5.to_vec(),
            android_id: d.android_id,
            apn: d.apn,
            vendor_name: d.vendor_name,
            vendor_os_name: d.vendor_os_name,
        }
    }
}

/// A buffer is known by its bytes alone, so the conversion is fixed up to
/// the view: `from_spec` picks one value with the view of the source.
impl FromSpecImpl<PyDevice> for Device {
    open spec fn obeys_from_spec() -> bool {
        false
    }

    open spec fn from_spec(d: PyDevice) -> Device {
        choose|r: Device| r@ == d@
    }
}

impl PyDevice {
    /// A device with the given fields. Every value is taken as it is: any
    /// text, any bytes and any API level. The two byte slices are copied, so
    /// the device does not depend on the caller's buffers afterwards.
    pub fn new(
        display: String,
        product: String,
        device: String,
        board: String,
        model: String,
        finger_print: String,
        boot_id: String,
        proc_version: String,
        imei: String,
        brand: String,
        bootloader: String,
        base_band: String,
        version: PyOSVersion,
        sim_info: String,
        os_type: String,
        mac_address: String,
        ip_address: &[u8],
        wifi_bssid: String,
        wifi_ssid: String,
        imsi_md5: &[u8],
        android_id: String,
        apn: String,
        vendor_name: String,
        vendor_os_name: String,
    ) -> (r: PyDevice)
        ensures
            r@ == (DeviceView {
                display: display@,
                product: product@,
                device: device@,
                board: board@,
                model: model@,
                finger_print: finger_print@,
                boot_id: boot_id@,
                proc_version: proc_version@,
                imei: imei@,
                brand: brand@,
                bootloader: bootloader@,
                base_band: base_band@,
                version: version@,
                sim_info: sim_info@,
                os_type: os_type@,
                mac_address: mac_address@,
                ip_address: ip_address@,
                wifi_bssid: wifi_bssid@,
                wifi_ssid: wifi_ssid@,
                imsi_md5: imsi_md5@,
                android_id: android_id@,
                apn: apn@,
                vendor_name: vendor_name@,
                vendor_os_name: vendor_os_name@,
            }),
    {
        PyDevice {
            display,
            product,
            device,
            board,
            model,
            finger_print,
            boot_id,
            proc_version,
            imei,
            brand,
            bootloader,
            base_band,
            version,
            sim_info,
            os_type,
            mac_address,
            ip_address: slice_to_vec(ip_address),
            wifi_bssid,
            wifi_ssid,
            imsi_md5: PBytes::copy_from_slice(imsi_md5),
            android_id,
            apn,
            vendor_name,
            vendor_os_name,
        }
    }

    /// Replaces the digest by the bytes of a host object. An object that is
    /// no byte string is refused, and the device stays as it was.
    pub fn set_imsi_md5(&mut self, obj: &PyAny) -> (r: Result<(), DeviceError>)
        ensures
            match host_bytes(*obj) {
                Some(data) => r is Ok && final(self)@ == (DeviceView { imsi_md5: data, ..old(self)@ }),
                None => r matches Err(DeviceError::TypeMismatch) && *final(self) == *old(self),
            },
    {
        match PBytes::extract(obj) {
            Ok(data) => {
                self.imsi_md5 = data;
                Ok(())
            },
            Err(e) => Err(e),
        }
    }

    /// Replaces the network address by the bytes of a host object. An object
    /// that is no byte string is refused, and the device stays as it was.
    pub fn set_ip_address(&mut self, obj: &PyAny) -> (r: Result<(), DeviceError>)
        ensures
            match host_bytes(*obj) {
                Some(data) => r is Ok && final(self)@ == (DeviceView { ip_address: data, ..old(self)@ }),
                None => r matches Err(DeviceError::TypeMismatch) && *final(self) == *old(self),
            },
    {
        match PBytes::extract(obj) {
            Ok(data) => {
                self.ip_address = data.to_vec();
                Ok(())
            },
            Err(e) => Err(e),
        }
    }

    /// The digest as a fresh byte string of the host.
    pub fn get_imsi_md5<'py>(&self, py: Python<'py>) -> (r: &'py PyAny)
        ensures
            host_bytes(*r) == Some(self@.imsi_md5),
    {
        self.imsi_md5.clone().into_py(py)
    }

    /// The network address as a fresh byte string of the host.
    pub fn get_ip_address<'py>(&self, py: Python<'py>) -> (r: &'py PyAny)
        ensures
            host_bytes(*r) == Some(self@.ip_address),
    {
        PBytes::copy_from_slice(self.ip_address.as_slice()).into_py(py)
    }
}

} // verus!
