//! Byte buffers that are shared by counting references: made once, never
//! changed, cheap to hand on.
use bytes::Bytes;
use vstd::prelude::*;

verus! {

/// `bytes::Bytes`: a buffer of bytes that is shared by counting references.
/// Nothing is known of a buffer but what `contents` says of it.
#[verifier::external_type_specification]
#[verifier::external_body]
pub struct ExBytes(bytes::Bytes);

/// The bytes that a buffer holds, in order.
pub uninterp spec fn contents(buffer: Bytes) -> Seq<u8>;

/// `Bytes::from` for a vector: the buffer takes the vector over and holds
/// its bytes, all of them and in the same order.
pub assume_specification[ <Bytes as From<Vec<u8>>>::from ](vec: Vec<u8>) -> (buffer: Bytes)
    ensures
        contents(buffer) == vec@,
;

/// `Bytes::clone`: a second handle to the same bytes.
pub assume_specification[ <Bytes as Clone>::clone ](buffer: &Bytes) -> (copy: Bytes)
    ensures
        contents(copy) == contents(*buffer),
;

/// `Vec::from` for a buffer: a vector with the bytes of the buffer, all of
/// them and in the same order.
pub assume_specification[ <Vec<u8> as From<Bytes>>::from ](buffer: Bytes) -> (vec: Vec<u8>)
    ensures
        vec@ == contents(buffer),
;

/// `Bytes::len`: the number of bytes that the buffer holds.
pub assume_specification[ Bytes::len ](buffer: &Bytes) -> (len: usize)
    ensures
        len == contents(*buffer).len(),
;

/// What an optional buffer holds.
pub open spec fn optional_contents(buffer: Option<Bytes>) -> Option<Seq<u8>> {
    match buffer {
        Some(b) => Some(contents(b)),
        None => None,
    }
}

/// A second handle to an optional buffer.
pub fn clone_optional(buffer: &Option<Bytes>) -> (copy: Option<Bytes>)
    ensures
        optional_contents(copy) == optional_contents(*buffer),
{
    match buffer {
        Some(b) => Some(b.clone()),
        None => None,
    }
}

/// The bytes of a buffer as a vector of their own. The buffer stays as it is.
pub fn to_vec(buffer: &Bytes) -> (vec: Vec<u8>)
    ensures
        vec@ == contents(*buffer),
{
    Vec::from(buffer.clone())
}

/// An optional vector of bytes as an optional buffer.
pub fn optional_from_vec(bytes: Option<Vec<u8>>) -> (buffer: Option<Bytes>)
    ensures
        optional_contents(buffer) == optional_bytes(bytes),
{
    match bytes {
        Some(v) => Some(Bytes::from(v)),
        None => None,
    }
}

/// The bytes of an optional buffer as an optional vector of their own.
pub fn optional_to_vec(buffer: &Option<Bytes>) -> (bytes: Option<Vec<u8>>)
    ensures
        optional_bytes(bytes) == optional_contents(*buffer),
{
    match buffer {
        Some(b) => Some(to_vec(b)),
        None => None,
    }
}

/// What an optional vector of bytes holds.
pub open spec fn optional_bytes(bytes: Option<Vec<u8>>) -> Option<Seq<u8>> {
    match bytes {
        Some(v) => Some(v@),
        None => None,
    }
}

} // verus!
