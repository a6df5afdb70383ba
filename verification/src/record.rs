//! The stored form of a prior: the eight bytes of its bit pattern, the most
//! significant first.

use crate::binary64::Binary64;
use crate::failure::{outcome, Failure, FailureView};
use vstd::prelude::*;

verus! {

/// The length of a record.
pub const RECORD_LENGTH: usize = 8;

/// The eight bytes of a pattern, the most significant first.
pub open spec fn be_bytes(bits: u64) -> Seq<u8> {
    seq![
        (bits / 0x0100_0000_0000_0000) as u8,
        (bits / 0x0001_0000_0000_0000 % 0x100) as u8,
        (bits / 0x0000_0100_0000_0000 % 0x100) as u8,
        (bits / 0x0000_0001_0000_0000 % 0x100) as u8,
        (bits / 0x0000_0000_0100_0000 % 0x100) as u8,
        (bits / 0x0000_0000_0001_0000 % 0x100) as u8,
        (bits / 0x0000_0000_0000_0100 % 0x100) as u8,
        (bits % 0x100) as u8,
    ]
}

/// The number that eight bytes spell, the most significant first.
pub open spec fn be_number(bytes: Seq<u8>) -> int
    recommends
        bytes.len() == 8,
{
    bytes[0] * 0x0100_0000_0000_0000 + bytes[1] * 0x0001_0000_0000_0000 + bytes[2]
        * 0x0000_0100_0000_0000 + bytes[3] * 0x0000_0001_0000_0000 + bytes[4]
        * 0x0000_0000_0100_0000 + bytes[5] * 0x0000_0000_0001_0000 + bytes[6]
        * 0x0000_0000_0000_0100 + bytes[7]
}

/// The record of a value.
pub open spec fn encoded(value: Binary64) -> Seq<u8> {
    be_bytes(value.bits)
}

/// What a record holds: a value if it is eight bytes long, and nothing
/// otherwise.
pub open spec fn decoded(record: Seq<u8>) -> Result<Binary64, FailureView> {
    if record.len() == 8 {
        Ok(Binary64 { bits: be_number(record) as u64 })
    } else {
        Err(FailureView::MalformedStoredValue)
    }
}

/// A pattern is the number that its eight bytes spell.
proof fn lemma_split(bits: u64)
    by (bit_vector)
    ensures
        bits / 0x0100_0000_0000_0000 < 0x100,
        bits == (bits / 0x0100_0000_0000_0000) * 0x0100_0000_0000_0000 + (bits
            / 0x0001_0000_0000_0000 % 0x100) * 0x0001_0000_0000_0000 + (bits
            / 0x0000_0100_0000_0000 % 0x100) * 0x0000_0100_0000_0000 + (bits
            / 0x0000_0001_0000_0000 % 0x100) * 0x0000_0001_0000_0000 + (bits
            / 0x0000_0000_0100_0000 % 0x100) * 0x0000_0000_0100_0000 + (bits
            / 0x0000_0000_0001_0000 % 0x100) * 0x0000_0000_0001_0000 + (bits
            / 0x0000_0000_0000_0100 % 0x100) * 0x0000_0000_0000_0100 + bits % 0x100,
{
}

/// The bytes of the number that eight bytes spell are those eight bytes.
proof fn lemma_join(b0: u8, b1: u8, b2: u8, b3: u8, b4: u8, b5: u8, b6: u8, b7: u8, bits: u64)
    by (bit_vector)
    requires
        bits == b0 * 0x0100_0000_0000_0000 + b1 * 0x0001_0000_0000_0000 + b2
            * 0x0000_0100_0000_0000 + b3 * 0x0000_0001_0000_0000 + b4 * 0x0000_0000_0100_0000
            + b5 * 0x0000_0000_0001_0000 + b6 * 0x0000_0000_0000_0100 + b7,
    ensures
        bits / 0x0100_0000_0000_0000 == b0,
        bits / 0x0001_0000_0000_0000 % 0x100 == b1,
        bits / 0x0000_0100_0000_0000 % 0x100 == b2,
        bits / 0x0000_0001_0000_0000 % 0x100 == b3,
        bits / 0x0000_0000_0100_0000 % 0x100 == b4,
        bits / 0x0000_0000_0001_0000 % 0x100 == b5,
        bits / 0x0000_0000_0000_0100 % 0x100 == b6,
        bits % 0x100 == b7,
{
}

/// A record decodes to the value it was encoded from.
pub proof fn lemma_decode_encode(value: Binary64)
    ensures
        encoded(value).len() == 8,
        decoded(encoded(value)) == Ok::<Binary64, FailureView>(value),
{
    lemma_split(value.bits);
}

/// A record of eight bytes is the encoding of the value it decodes to.
pub proof fn lemma_encode_decode(record: Seq<u8>)
    requires
        record.len() == 8,
    ensures
        decoded(record) matches Ok(value) && encoded(value) == record,
{
    let n = be_number(record);
    let bits: u64 = n as u64;
    lemma_join(
        record[0],
        record[1],
        record[2],
        record[3],
        record[4],
        record[5],
        record[6],
        record[7],
        bits,
    );
    assert(be_bytes(bits) =~= record);
}

impl Binary64 {
    /// The record of the value.
    pub fn to_be_bytes(&self) -> (record: [u8; 8])
        ensures
            record@ == encoded(*self),
    {
        let bits: u64 = self.bits;
        let record: [u8; 8] = [
            (bits >> 56) as u8,
            ((bits >> 48) & 0xff) as u8,
            ((bits >> 40) & 0xff) as u8,
            ((bits >> 32) & 0xff) as u8,
            ((bits >> 24) & 0xff) as u8,
            ((bits >> 16) & 0xff) as u8,
            ((bits >> 8) & 0xff) as u8,
            (bits & 0xff) as u8,
        ];
        proof {
            assert(bits >> 56 == bits / 0x0100_0000_0000_0000) by (bit_vector);
            assert((bits >> 48) & 0xff == bits / 0x0001_0000_0000_0000 % 0x100) by (bit_vector);
            assert((bits >> 40) & 0xff == bits / 0x0000_0100_0000_0000 % 0x100) by (bit_vector);
            assert((bits >> 32) & 0xff == bits / 0x0000_0001_0000_0000 % 0x100) by (bit_vector);
            assert((bits >> 24) & 0xff == bits / 0x0000_0000_0100_0000 % 0x100) by (bit_vector);
            assert((bits >> 16) & 0xff == bits / 0x0000_0000_0001_0000 % 0x100) by (bit_vector);
            assert((bits >> 8) & 0xff == bits / 0x0000_0000_0000_0100 % 0x100) by (bit_vector);
            assert(bits & 0xff == bits % 0x100) by (bit_vector);
            assert(record@ =~= encoded(*self));
        }
        record
    }
}

/// Reads the value that a record holds.
pub fn decode_prior(record: &[u8]) -> (result: Result<Binary64, Failure>)
    ensures
        outcome(result) == decoded(record@),
{
    if record.len() != RECORD_LENGTH {
        return Err(Failure::MalformedStoredValue);
    }
    let mut bits: u64 = 0;
    let mut i: usize = 0;
    while i < RECORD_LENGTH
        invariant
            record@.len() == 8,
            i <= 8,
            bits as int == prefix_number(record@, i as int),
        decreases 8 - i,
    {
        let byte: u8 = record[i];
        proof {
            lemma_prefix_bound(record@, i as int);
        }
        bits = bits * 256 + byte as u64;
        i += 1;
    }
    proof {
        assert(prefix_number(record@, 8) == be_number(record@)) by {
            reveal_with_fuel(prefix_number, 9);
        }
    }
    Ok(Binary64 { bits })
}

/// The number that the first `count` bytes spell, the most significant first.
pub open spec fn prefix_number(bytes: Seq<u8>, count: int) -> int
    decreases count,
{
    if count <= 0 {
        0
    } else {
        prefix_number(bytes, count - 1) * 256 + bytes[count - 1]
    }
}

/// The first `count` bytes spell a number below 256 to the power `count`.
proof fn lemma_prefix_bound(bytes: Seq<u8>, count: int)
    requires
        0 <= count < 8,
        bytes.len() == 8,
    ensures
        0 <= prefix_number(bytes, count) < 0x0100_0000_0000_0000,
{
    reveal_with_fuel(prefix_number, 9);
}

} // verus!
