//! The identity of a simulated mobile device: its fields, their JSON form,
//! and the byte buffers that cross between the library and a Python host.

pub mod codec;
pub mod device;
pub mod error;
pub mod json;
pub mod pbytes;
pub mod schema;

pub use crate::device::{Device, DeviceView, OSVersion, OSVersionView, PyDevice, PyOSVersion};
pub use crate::error::DeviceError;
pub use crate::pbytes::PBytes;
