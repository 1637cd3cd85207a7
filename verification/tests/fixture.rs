use sudoku_lib::encode;
use sudoku_lib::fixture::{
    create_proof_fixture, fixture_file_name, to_prefixed_hex, ProofSystem, SP1SudokuProofFixture,
};

#[test]
fn bytes_are_written_in_lower_case_hex() {
    assert_eq!(to_prefixed_hex(&[1, 2, 3, 15, 16]), "0x0102030f10");
    assert_eq!(to_prefixed_hex(b"Hello world!"), "0x48656c6c6f20776f726c6421");
    assert_eq!(to_prefixed_hex(&[0xab, 0xcd, 0xef, 0xff, 0x00, 0x9a]), "0xabcdefff009a");
}

#[test]
fn no_bytes_are_written_as_the_prefix_alone() {
    assert_eq!(to_prefixed_hex(&[]), "0x");
}

#[test]
fn every_byte_takes_two_digits() {
    for byte in 0..=255u8 {
        let text = to_prefixed_hex(&[byte]);
        assert_eq!(text.len(), 4);
        assert_eq!(u8::from_str_radix(&text[2..], 16), Ok(byte));
        assert_eq!(text, text.to_lowercase());
    }
}

#[test]
fn fixture_of_a_valid_proof() {
    let fixture = create_proof_fixture(&encode(true), &[0xde, 0xad], "0x00ab".to_string());
    assert_eq!(
        fixture,
        SP1SudokuProofFixture {
            is_valid: true,
            vkey: "0x00ab".to_string(),
            public_values:
                "0x0000000000000000000000000000000000000000000000000000000000000001".to_string(),
            proof: "0xdead".to_string(),
        }
    );
}

#[test]
fn fixture_of_an_invalid_proof() {
    let fixture = create_proof_fixture(&encode(false), &[], String::new());
    assert_eq!(
        fixture,
        SP1SudokuProofFixture {
            is_valid: false,
            vkey: String::new(),
            public_values:
                "0x0000000000000000000000000000000000000000000000000000000000000000".to_string(),
            proof: "0x".to_string(),
        }
    );
}

#[test]
fn fixture_without_public_values_is_not_valid() {
    let fixture = create_proof_fixture(&[], &[1], "k".to_string());
    assert!(!fixture.is_valid);
    assert_eq!(fixture.public_values, "0x");
    assert_eq!(fixture.proof, "0x01");
}

#[test]
fn fixture_files_are_named_after_the_system() {
    assert_eq!(fixture_file_name(ProofSystem::Plonk), "plonk-fixture.json");
    assert_eq!(fixture_file_name(ProofSystem::Groth16), "groth16-fixture.json");
}
