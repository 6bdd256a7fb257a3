//! Content addresses, as the `xor_name` crate holds them.

use vstd::prelude::*;
use xor_name::XorName;

verus! {

/// Bytes in a content address.
pub const CONTENT_ADDRESS_LEN: usize = 32;

/// A content address: `xor_name` wraps an array of 32 bytes.
#[verifier::external_type_specification]
#[verifier::external_body]
pub struct ExXorName(xor_name::XorName);

/// The bytes that a content address wraps, in the order of its array.
pub uninterp spec fn xor_name_bytes(name: XorName) -> Seq<u8>;

/// Copies the bytes of a content address out, through the slice that
/// `XorName`'s `deref` hands out and the slice's `to_vec`.
///
/// Not proved: that these are the wrapped bytes, named [`xor_name_bytes`],
/// and that there are 32 of them.
#[verifier::external_body]
pub(crate) fn content_bytes(name: &XorName) -> (bytes: Vec<u8>)
    ensures
        bytes@ == xor_name_bytes(*name),
        bytes@.len() == CONTENT_ADDRESS_LEN,
{
    name.to_vec()
}

/// `XorName::default()`, which `xor_name` derives.
///
/// Not proved: that the address it makes wraps 32 zero bytes.
#[verifier::external_body]
pub(crate) fn default_content() -> (name: XorName)
    ensures
        xor_name_bytes(name) == Seq::new(CONTENT_ADDRESS_LEN as nat, |i: int| 0u8),
{
    XorName::default()
}

} // verus!
