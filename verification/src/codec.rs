//! The public output: the one boolean of a check, laid out as a contract on
//! a chain reads it.
//!
//! The layout is that of a struct with a single `bool` field in the
//! contract ABI: one word of 32 bytes, big-endian, so thirty-one zero
//! bytes followed by `1` for `true` or `0` for `false`. Verifiers elsewhere
//! depend on it byte for byte.

use vstd::prelude::*;

verus! {

/// Width of the public output in bytes: one ABI word.
pub const PUBLIC_VALUES_LEN: usize = 32;

/// The values that a proof commits to in public.
#[derive(Clone, Copy, Debug, PartialEq, Eq, Structural)]
pub struct PublicValuesStruct {
    pub is_valid: bool,
}

/// The bytes that stand for `outcome`.
pub open spec fn encoding(outcome: bool) -> Seq<u8> {
    Seq::new(32, |i: int| if i == 31 && outcome { 1u8 } else { 0u8 })
}

/// The outcome that `bytes` are read as: `true` where the last byte is `1`,
/// `false` for anything else, the empty sequence included.
pub open spec fn decoding(bytes: Seq<u8>) -> bool {
    bytes.len() > 0 && bytes.last() == 1
}

/// Encodes the outcome of a check as its public output.
pub fn encode(outcome: bool) -> (bytes: Vec<u8>)
    ensures
        bytes@ == encoding(outcome),
{
    let mut bytes: Vec<u8> = Vec::new();
    while bytes.len() < PUBLIC_VALUES_LEN - 1
        invariant
            bytes.len() <= 31,
            forall|i: int| 0 <= i < bytes.len() ==> bytes[i] == 0,
        decreases 31 - bytes.len(),
    {
        bytes.push(0);
    }
    bytes.push(if outcome { 1 } else { 0 });
    bytes
}

/// Reads the outcome of a check back from a public output.
///
/// The reading is total: only the last byte is looked at, and bytes that
/// no call of [`encode`] produced read as `false` unless they end in `1`.
pub fn decode(bytes: &[u8]) -> (outcome: bool)
    ensures
        outcome == decoding(bytes@),
{
    bytes.len() > 0 && bytes[bytes.len() - 1] == 1
}

impl PublicValuesStruct {
    /// The bytes that stand for these public values.
    pub fn abi_encode(&self) -> (bytes: Vec<u8>)
        ensures
            bytes@ == encoding(self.is_valid),
    {
        encode(self.is_valid)
    }
}

/// Decoding undoes encoding.
pub proof fn lemma_decode_encode(outcome: bool)
    ensures
        decoding(encoding(outcome)) == outcome,
{
}

/// The two outcomes have different encodings, and each encoding is one
/// word long.
pub proof fn lemma_encodings_differ()
    ensures
        encoding(true) != encoding(false),
        encoding(true).len() == 32,
        encoding(false).len() == 32,
{
    assert(encoding(true)[31] != encoding(false)[31]);
}

} // verus!
