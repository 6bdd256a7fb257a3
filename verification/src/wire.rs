//! Byte encodings that the signed layout of a quote is built from.

use vstd::arithmetic::div_mod::lemma_div_denominator;
use vstd::prelude::*;

verus! {

/// The eight bytes of `value` in little-endian order: the byte at index
/// `i` is the `i`-th digit of `value` written in base 256, lowest first.
pub open spec fn le_bytes(value: nat) -> Seq<u8> {
    seq![
        (value % 0x100) as u8,
        (value / 0x100 % 0x100) as u8,
        (value / 0x1_0000 % 0x100) as u8,
        (value / 0x100_0000 % 0x100) as u8,
        (value / 0x1_0000_0000 % 0x100) as u8,
        (value / 0x100_0000_0000 % 0x100) as u8,
        (value / 0x1_0000_0000_0000 % 0x100) as u8,
        (value / 0x100_0000_0000_0000 % 0x100) as u8,
    ]
}

/// Writes `value` as eight little-endian bytes.
pub fn u64_le_bytes(value: u64) -> (bytes: [u8; 8])
    ensures
        bytes@ == le_bytes(value as nat),
{
    [
        (value % 0x100) as u8,
        (value / 0x100 % 0x100) as u8,
        (value / 0x1_0000 % 0x100) as u8,
        (value / 0x100_0000 % 0x100) as u8,
        (value / 0x1_0000_0000 % 0x100) as u8,
        (value / 0x100_0000_0000 % 0x100) as u8,
        (value / 0x1_0000_0000_0000 % 0x100) as u8,
        (value / 0x100_0000_0000_0000 % 0x100) as u8,
    ]
}

/// A number below 2^64 is the sum of its eight little-endian bytes, each
/// weighted by the power of 256 that belongs to its place.
pub proof fn lemma_le_bytes_add_up(value: nat)
    requires
        value <= u64::MAX,
    ensures
        value == le_bytes(value)[0] + 0x100 * le_bytes(value)[1] + 0x1_0000 * le_bytes(value)[2]
            + 0x100_0000 * le_bytes(value)[3] + 0x1_0000_0000 * le_bytes(value)[4]
            + 0x100_0000_0000 * le_bytes(value)[5] + 0x1_0000_0000_0000 * le_bytes(value)[6]
            + 0x100_0000_0000_0000 * le_bytes(value)[7],
{
    let v = value as int;
    let q1 = v / 0x100;
    let q2 = v / 0x1_0000;
    let q3 = v / 0x100_0000;
    let q4 = v / 0x1_0000_0000;
    let q5 = v / 0x100_0000_0000;
    let q6 = v / 0x1_0000_0000_0000;
    let q7 = v / 0x100_0000_0000_0000;
    assert(q2 == q1 / 0x100) by {
        lemma_div_denominator(v, 0x100, 0x100);
    }
    assert(q3 == q2 / 0x100) by {
        lemma_div_denominator(v, 0x1_0000, 0x100);
    }
    assert(q4 == q3 / 0x100) by {
        lemma_div_denominator(v, 0x100_0000, 0x100);
    }
    assert(q5 == q4 / 0x100) by {
        lemma_div_denominator(v, 0x1_0000_0000, 0x100);
    }
    assert(q6 == q5 / 0x100) by {
        lemma_div_denominator(v, 0x100_0000_0000, 0x100);
    }
    assert(q7 == q6 / 0x100) by {
        lemma_div_denominator(v, 0x1_0000_0000_0000, 0x100);
    }
    assert(q7 < 0x100);
    assert(v == 0x100 * q1 + v % 0x100);
    assert(q1 == 0x100 * q2 + q1 % 0x100);
    assert(q2 == 0x100 * q3 + q2 % 0x100);
    assert(q3 == 0x100 * q4 + q3 % 0x100);
    assert(q4 == 0x100 * q5 + q4 % 0x100);
    assert(q5 == 0x100 * q6 + q5 % 0x100);
    assert(q6 == 0x100 * q7 + q6 % 0x100);
}

/// Eight little-endian bytes stand for one number only: two numbers
/// below 2^64 with the same bytes are the same number.
pub proof fn lemma_le_bytes_tell_numbers_apart(a: nat, b: nat)
    requires
        a <= u64::MAX,
        b <= u64::MAX,
        le_bytes(a) == le_bytes(b),
    ensures
        a == b,
{
    lemma_le_bytes_add_up(a);
    lemma_le_bytes_add_up(b);
}

/// The error with which `rmp_serde` gives up an encoding.
#[verifier::external_type_specification]
#[verifier::external_body]
pub struct ExEncodeError(rmp_serde::encode::Error);

/// The MessagePack bytes that `rmp_serde::to_vec` writes for the four
/// numbers of a metrics snapshot, taken as one tuple in this order.
pub uninterp spec fn metrics_msgpack(
    close_records_stored: usize,
    max_records: usize,
    received_payment_count: usize,
    live_time: u64,
) -> Seq<u8>;

/// Calls `rmp_serde::to_vec` on the tuple of the four numbers.
///
/// Not proved: that the bytes it returns are a function of the four
/// numbers alone, named [`metrics_msgpack`]. `rmp_serde` writes a tuple as
/// it writes a struct with the same fields, as an array without field
/// names. Nothing is claimed of when it fails: it does so when it cannot
/// get memory for its buffer.
#[verifier::external_body]
pub(crate) fn rmp_to_vec(
    close_records_stored: usize,
    max_records: usize,
    received_payment_count: usize,
    live_time: u64,
) -> (written: Result<Vec<u8>, rmp_serde::encode::Error>)
    ensures
        written matches Ok(bytes) ==> bytes@ == metrics_msgpack(
            close_records_stored,
            max_records,
            received_payment_count,
            live_time,
        ),
{
    rmp_serde::to_vec(&(close_records_stored, max_records, received_payment_count, live_time))
}

} // verus!
