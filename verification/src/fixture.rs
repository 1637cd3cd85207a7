//! The fixture that a proof is kept in for checks on a chain: the proof and
//! what it commits to, written out in hexadecimal.

use crate::codec::{decode, decoding};
use vstd::prelude::*;
use vstd::string::*;

verus! {

/// The proof systems whose proofs a contract can check.
#[derive(Clone, Copy, Debug, PartialEq, Eq, Structural)]
pub enum ProofSystem {
    Plonk,
    Groth16,
}

/// A proof with its verification key and its public values, ready to be
/// written down.
#[derive(Clone, Debug, PartialEq, Eq)]
pub struct SP1SudokuProofFixture {
    pub is_valid: bool,
    pub vkey: String,
    pub public_values: String,
    pub proof: String,
}

/// The character that stands for `n` in hexadecimal, for `n` from zero to
/// fifteen; the letters are lower case.
pub open spec fn hex_digit(n: int) -> char {
    seq!['0', '1', '2', '3', '4', '5', '6', '7', '8', '9', 'a', 'b', 'c', 'd', 'e', 'f'][n]
}

/// The bytes written in hexadecimal: two digits for each byte, the high
/// half first.
pub open spec fn hex_text(bytes: Seq<u8>) -> Seq<char> {
    Seq::new(
        2 * bytes.len(),
        |i: int|
            if i % 2 == 0 {
                hex_digit(bytes[i / 2] as int / 16)
            } else {
                hex_digit(bytes[i / 2] as int % 16)
            },
    )
}

/// The bytes as a contract's tooling writes them: `0x`, then the
/// hexadecimal digits.
pub open spec fn prefixed_hex(bytes: Seq<u8>) -> Seq<char> {
    seq!['0', 'x'] + hex_text(bytes)
}

/// The name of the file that the fixture of a proof system is kept in.
pub open spec fn file_name_of(system: ProofSystem) -> Seq<char> {
    match system {
        ProofSystem::Plonk => "plonk-fixture.json"@,
        ProofSystem::Groth16 => "groth16-fixture.json"@,
    }
}

/// `hex::encode`: the text it returns holds, for each byte of the input in
/// order, the digit of the byte's high half and then the digit of its low
/// half, taken from `0123456789abcdef`. This is taken from the crate, not
/// proved here.
#[verifier::external_body]
fn hex_encode(bytes: &[u8]) -> (text: String)
    ensures
        text@ == hex_text(bytes@),
{
    hex::encode(bytes)
}

/// Writes bytes as `0x` and their hexadecimal digits.
pub fn to_prefixed_hex(bytes: &[u8]) -> (text: String)
    ensures
        text@ == prefixed_hex(bytes@),
{
    proof {
        reveal_strlit("0x");
    }
    let text = String::from_str("0x").concat(hex_encode(bytes).as_str());
    assert(text@ =~= prefixed_hex(bytes@));
    text
}

/// Puts a proof, the key it is checked with and its public values together
/// as a fixture. Whether the proof says "valid" is read from the public
/// values.
pub fn create_proof_fixture(public_values: &[u8], proof: &[u8], vkey: String) -> (fixture:
    SP1SudokuProofFixture)
    ensures
        fixture.is_valid == decoding(public_values@),
        fixture.vkey == vkey,
        fixture.public_values@ == prefixed_hex(public_values@),
        fixture.proof@ == prefixed_hex(proof@),
{
    SP1SudokuProofFixture {
        is_valid: decode(public_values),
        vkey,
        public_values: to_prefixed_hex(public_values),
        proof: to_prefixed_hex(proof),
    }
}

/// Names the file that the fixture of a proof system is kept in.
pub fn fixture_file_name(system: ProofSystem) -> (name: String)
    ensures
        name@ == file_name_of(system),
{
    match system {
        ProofSystem::Plonk => String::from_str("plonk-fixture.json"),
        ProofSystem::Groth16 => String::from_str("groth16-fixture.json"),
    }
}

} // verus!
