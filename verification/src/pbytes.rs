use vstd::prelude::*;
use vstd::slice::slice_to_vec;
use bytes::Bytes;
use pyo3::types::PyBytes;
use pyo3::PyAny;
use pyo3::Python;
use crate::error::DeviceError;

verus! {

/// `bytes::Bytes`: a byte buffer that can be shared without copying.
#[verifier::external_type_specification]
#[verifier::external_body]
pub struct ExBytes(Bytes);

/// `pyo3::PyAny`: an object of the Python host, of whatever type.
#[verifier::external_type_specification]
#[verifier::external_body]
pub struct ExPyAny(PyAny);

/// `pyo3::Python`: the token that shows that the host's lock is held.
#[verifier::external_type_specification]
#[verifier::external_body]
pub struct ExPython<'py>(Python<'py>);

/// The bytes that a `Bytes` buffer holds, in order.
pub uninterp spec fn bytes_of(b: Bytes) -> Seq<u8>;

/// The bytes that a host object holds where it is a byte string; `None` for
/// an object of any other type.
pub uninterp spec fn host_bytes(obj: PyAny) -> Option<Seq<u8>>;

/// Calls `Bytes::from` on a vector: a buffer that takes the vector's bytes
/// over.
#[verifier::external_body]
fn bytes_from_vec(v: Vec<u8>) -> (r: Bytes)
    ensures
        bytes_of(r) == v@,
{
    Bytes::from(v)
}

/// Calls `Bytes::new`: a buffer without bytes.
#[verifier::external_body]
fn bytes_new() -> (r: Bytes)
    ensures
        bytes_of(r) == Seq::<u8>::empty(),
{
    Bytes::new()
}

/// `Bytes::clone` gives a second handle to the same bytes.
pub assume_specification[ <Bytes as Clone>::clone ](b: &Bytes) -> (r: Bytes)
    ensures
        bytes_of(r) == bytes_of(*b),
;

/// Borrows the contents of a `Bytes` buffer through its `Deref` impl.
#[verifier::external_body]
fn bytes_as_slice(b: &Bytes) -> (r: &[u8])
    ensures
        r@ == bytes_of(*b),
{
    b
}

/// Calls `PyAny::downcast` for `PyBytes`, which succeeds for a byte string
/// and for nothing else, and borrows the bytes with `PyBytes::as_bytes`.
#[verifier::external_body]
fn host_as_bytes<'a>(obj: &'a PyAny) -> (r: Option<&'a [u8]>)
    ensures
        match host_bytes(*obj) {
            Some(data) => r is Some && r.unwrap()@ == data,
            None => r is None,
        },
{
    match obj.downcast::<PyBytes>() {
        Ok(b) => Some(b.as_bytes()),
        Err(_) => None,
    }
}

/// Calls `PyBytes::new`, which makes a fresh byte string of the host and
/// copies the data into it.
#[verifier::external_body]
fn host_from_bytes<'py>(py: Python<'py>, data: &[u8]) -> (r: &'py PyAny)
    ensures
        host_bytes(*r) == Some(data@),
{
    PyBytes::new(py, data)
}

/// A byte buffer that the library owns, as it crosses to the host and back.
#[derive(Debug, PartialEq, Eq)]
pub struct PBytes(pub Bytes);

impl Clone for PBytes {
    /// A second buffer with the same bytes.
    fn clone(&self) -> (r: PBytes)
        ensures
            r@ == self@,
    {
        PBytes(self.0.clone())
    }
}

impl View for PBytes {
    type V = Seq<u8>;

    open spec fn view(&self) -> Seq<u8> {
        bytes_of(self.0)
    }
}

impl Default for PBytes {
    /// The buffer without bytes.
    fn default() -> (r: PBytes)
        ensures
            r@ == Seq::<u8>::empty(),
    {
        PBytes(bytes_new())
    }
}

impl PBytes {
    /// A buffer with a copy of the given bytes.
    pub fn copy_from_slice(data: &[u8]) -> (r: PBytes)
        ensures
            r@ == data@,
    {
        PBytes(bytes_from_vec(slice_to_vec(data)))
    }

    /// A buffer that takes over the bytes of a vector.
    pub fn from_vec(data: Vec<u8>) -> (r: PBytes)
        ensures
            r@ == data@,
    {
        PBytes(bytes_from_vec(data))
    }

    /// The bytes of the buffer, copied into a vector.
    pub fn to_vec(&self) -> (r: Vec<u8>)
        ensures
            r@ == self@,
    {
        slice_to_vec(bytes_as_slice(&self.0))
    }

    /// Takes a byte buffer from a host object. The object must be a byte
    /// string; its bytes are copied, so that the buffer does not depend on the
    /// host object afterwards.
    pub fn extract(obj: &PyAny) -> (r: Result<PBytes, DeviceError>)
        ensures
            match host_bytes(*obj) {
                Some(data) => r is Ok && r.unwrap()@ == data,
                None => r matches Err(DeviceError::TypeMismatch),
            },
    {
        match host_as_bytes(obj) {
            Some(data) => Ok(PBytes::copy_from_slice(data)),
            None => Err(DeviceError::TypeMismatch),
        }
    }

    /// Hands the buffer to the host as a fresh byte string with a copy of
    /// the bytes.
    pub fn into_py<'py>(self, py: Python<'py>) -> (r: &'py PyAny)
        ensures
            host_bytes(*r) == Some(self@),
    {
        host_from_bytes(py, bytes_as_slice(&self.0))
    }
}

} // verus!
