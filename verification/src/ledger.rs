//! Token amounts, recipient keys and transfer records, as far as a quote
//! and its payment need to carry them.

use crate::wire::le_bytes;
use crate::wire::u64_le_bytes;
use vstd::prelude::*;

verus! {

/// Bytes in a recipient's public key.
pub const PUBLIC_KEY_LEN: usize = 48;

/// An amount of tokens, counted in its smallest unit. Its view is that
/// count.
#[derive(Clone, Copy, PartialEq, Eq, Structural, PartialOrd, Ord, Hash, Debug)]
pub struct NanoTokens(u64);

impl View for NanoTokens {
    type V = nat;

    closed spec fn view(&self) -> nat {
        self.0 as nat
    }
}

impl From<u64> for NanoTokens {
    fn from(nanos: u64) -> (amount: NanoTokens)
        ensures
            amount@ == nanos,
    {
        NanoTokens(nanos)
    }
}

impl vstd::std_specs::convert::FromSpecImpl<u64> for NanoTokens {
    open spec fn obeys_from_spec() -> bool {
        true
    }

    closed spec fn from_spec(nanos: u64) -> NanoTokens {
        NanoTokens(nanos)
    }
}

impl NanoTokens {
    /// No tokens at all.
    pub fn zero() -> (amount: NanoTokens)
        ensures
            amount@ == 0,
    {
        NanoTokens(0)
    }

    /// The amount of `nanos` smallest units.
    pub fn from_nano(nanos: u64) -> (amount: NanoTokens)
        ensures
            amount@ == nanos,
    {
        NanoTokens(nanos)
    }

    /// The amount in its smallest unit.
    pub fn as_nano(&self) -> (nanos: u64)
        ensures
            nanos == self@,
    {
        self.0
    }

    /// Whether this is no tokens at all.
    pub fn is_zero(&self) -> (none: bool)
        ensures
            none == (self@ == 0),
    {
        self.0 == 0
    }

    /// The amount in its fixed byte form: eight bytes, little-endian.
    pub fn to_bytes(&self) -> (bytes: [u8; 8])
        ensures
            bytes@ == le_bytes(self@),
    {
        u64_le_bytes(self.0)
    }
}

/// The public key of a node that is paid.
#[derive(Clone, Copy, PartialEq, Eq, PartialOrd, Ord, Hash, Debug)]
pub struct MainPubkey(pub [u8; PUBLIC_KEY_LEN]);

/// A record of tokens handed over, in the form in which it travels. A
/// payment carries it and never looks inside. Its view is its bytes.
#[derive(PartialEq, Eq, Debug)]
pub struct Transfer {
    /// The record as the ledger wrote it.
    pub record: Vec<u8>,
}

impl View for Transfer {
    type V = Seq<u8>;

    open spec fn view(&self) -> Seq<u8> {
        self.record@
    }
}

impl Clone for Transfer {
    fn clone(&self) -> (copy: Self)
        ensures
            copy@ == self@,
    {
        Transfer { record: self.record.clone() }
    }
}

} // verus!
