use vstd::prelude::*;

verus! {

/// What can go wrong at the two edges of the library: reading a device from
/// text, and taking a byte buffer from the host.
#[derive(Debug, PartialEq, Eq)]
pub enum DeviceError {
    /// The text is not a JSON document, or the document does not have the
    /// shape of a device. The string says what was found wanting.
    MalformedInput(String),
    /// The host object offered as a binary field is not a byte string.
    TypeMismatch,
}

impl DeviceError {
    /// The description carried by the error, for the caller to show.
    pub fn description(&self) -> (r: String)
        ensures
            match *self {
                DeviceError::MalformedInput(text) => r@ == text@,
                DeviceError::TypeMismatch => r@ == "object is not a byte string"@,
            },
    {
        match self {
            DeviceError::MalformedInput(text) => text.clone(),
            DeviceError::TypeMismatch => String::from_str("object is not a byte string"),
        }
    }
}

} // verus!
