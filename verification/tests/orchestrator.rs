use sudoku_lib::orchestrator::{
    check_credential, conclude, correlation_token, plan, select_backend, BackendChoice,
    BackendOutcome, Plan, ProofFailure, ProofInput, ProofResult,
};
use sudoku_lib::verify_sudoku;

const PUZZLE: [[u8; 9]; 9] = [
    [5, 3, 0, 0, 7, 0, 0, 0, 0],
    [6, 0, 0, 1, 9, 5, 0, 0, 0],
    [0, 9, 8, 0, 0, 0, 0, 6, 0],
    [8, 0, 0, 0, 6, 0, 0, 0, 3],
    [4, 0, 0, 8, 0, 3, 0, 0, 1],
    [7, 0, 0, 0, 2, 0, 0, 0, 6],
    [0, 6, 0, 0, 0, 0, 2, 8, 0],
    [0, 0, 0, 4, 1, 9, 0, 0, 5],
    [0, 0, 0, 0, 8, 0, 0, 7, 9],
];

const SOLVED: [[u8; 9]; 9] = [
    [5, 3, 4, 6, 7, 8, 9, 1, 2],
    [6, 7, 2, 1, 9, 5, 3, 4, 8],
    [1, 9, 8, 3, 4, 2, 5, 6, 7],
    [8, 5, 9, 7, 6, 1, 4, 2, 3],
    [4, 2, 6, 8, 5, 3, 7, 9, 1],
    [7, 1, 3, 9, 2, 4, 8, 5, 6],
    [9, 6, 1, 5, 3, 7, 2, 8, 4],
    [2, 8, 7, 4, 1, 9, 6, 3, 5],
    [3, 4, 5, 2, 8, 6, 1, 7, 9],
];

fn invoke(backend: BackendChoice) -> Plan {
    Plan::Invoke { backend, input: ProofInput { board: PUZZLE, solution: SOLVED } }
}

#[test]
fn only_network_selects_the_remote_backend() {
    assert_eq!(select_backend(Some("network")), BackendChoice::Remote);
    assert_eq!(select_backend(Some("local")), BackendChoice::Local);
    assert_eq!(select_backend(None), BackendChoice::Local);
    assert_eq!(select_backend(Some("")), BackendChoice::Local);
    assert_eq!(select_backend(Some("Network")), BackendChoice::Local);
    assert_eq!(select_backend(Some("network ")), BackendChoice::Local);
    assert_eq!(select_backend(Some("cpu")), BackendChoice::Local);
}

#[test]
fn credential_not_set_is_missing() {
    assert_eq!(check_credential(None), Err(ProofFailure::MissingCredential));
}

#[test]
fn empty_credential_is_missing() {
    assert_eq!(check_credential(Some("")), Err(ProofFailure::MissingCredential));
}

#[test]
fn placeholder_credential_is_invalid() {
    assert_eq!(
        check_credential(Some("YOUR_PRIVATE_KEY_HERE")),
        Err(ProofFailure::InvalidCredential)
    );
}

#[test]
fn any_other_credential_passes() {
    assert_eq!(check_credential(Some("0xdeadbeef")), Ok(()));
    assert_eq!(check_credential(Some("your_private_key_here")), Ok(()));
    assert_eq!(check_credential(Some(" ")), Ok(()));
    assert_eq!(check_credential(Some("YOUR_PRIVATE_KEY_HERE ")), Ok(()));
}

#[test]
fn remote_with_empty_credential_is_refused_as_missing() {
    assert!(verify_sudoku(PUZZLE, SOLVED));
    assert_eq!(
        plan(PUZZLE, SOLVED, BackendChoice::Remote, Some("")),
        Plan::Refuse(ProofFailure::MissingCredential)
    );
    assert_eq!(
        plan(PUZZLE, SOLVED, BackendChoice::Remote, None),
        Plan::Refuse(ProofFailure::MissingCredential)
    );
}

#[test]
fn remote_with_placeholder_is_refused_as_invalid() {
    assert_eq!(
        plan(PUZZLE, SOLVED, BackendChoice::Remote, Some("YOUR_PRIVATE_KEY_HERE")),
        Plan::Refuse(ProofFailure::InvalidCredential)
    );
}

#[test]
fn remote_with_a_credential_is_invoked_on_the_pair() {
    assert_eq!(
        plan(PUZZLE, SOLVED, BackendChoice::Remote, Some("0xdeadbeef")),
        invoke(BackendChoice::Remote)
    );
}

#[test]
fn local_is_invoked_whatever_the_credential() {
    assert_eq!(plan(PUZZLE, SOLVED, BackendChoice::Local, None), invoke(BackendChoice::Local));
    assert_eq!(plan(PUZZLE, SOLVED, BackendChoice::Local, Some("")), invoke(BackendChoice::Local));
    assert_eq!(
        plan(PUZZLE, SOLVED, BackendChoice::Local, Some("YOUR_PRIVATE_KEY_HERE")),
        invoke(BackendChoice::Local)
    );
}

#[test]
fn local_proof_succeeds_without_token() {
    assert!(verify_sudoku(PUZZLE, SOLVED));
    let backend = match plan(PUZZLE, SOLVED, BackendChoice::Local, None) {
        Plan::Invoke { backend, .. } => backend,
        Plan::Refuse(failure) => panic!("refused: {:?}", failure),
    };
    let result = conclude(backend, BackendOutcome::Proved(vec![1, 2, 3]), 1_700_000_000);
    assert_eq!(
        result,
        ProofResult::Succeeded { proof: vec![1, 2, 3], backend: BackendChoice::Local, token: None }
    );
}

#[test]
fn remote_proof_succeeds_with_token_from_the_time() {
    let result =
        conclude(BackendChoice::Remote, BackendOutcome::Proved(vec![9, 8]), 1_700_000_000);
    assert_eq!(
        result,
        ProofResult::Succeeded {
            proof: vec![9, 8],
            backend: BackendChoice::Remote,
            token: Some("net_proof_1700000000".to_string()),
        }
    );
}

#[test]
fn abrupt_end_becomes_a_failure() {
    for backend in [BackendChoice::Local, BackendChoice::Remote] {
        for now in [0, 1, u64::MAX] {
            assert_eq!(
                conclude(backend, BackendOutcome::Aborted, now),
                ProofResult::Failed(ProofFailure::BackendAborted)
            );
        }
    }
}

#[test]
fn returned_error_becomes_a_failure_with_its_text() {
    assert_eq!(
        conclude(BackendChoice::Local, BackendOutcome::ProveFailed("out of memory".to_string()), 5),
        ProofResult::Failed(ProofFailure::BackendInvocationFailed(
            "Failed to generate local proof: out of memory".to_string()
        ))
    );
    assert_eq!(
        conclude(BackendChoice::Remote, BackendOutcome::ProveFailed("timed out".to_string()), 5),
        ProofResult::Failed(ProofFailure::BackendInvocationFailed(
            "Failed to generate network proof: timed out".to_string()
        ))
    );
    assert_eq!(
        conclude(BackendChoice::Local, BackendOutcome::VerifyFailed("bad proof".to_string()), 5),
        ProofResult::Failed(ProofFailure::BackendInvocationFailed(
            "Failed to verify local proof: bad proof".to_string()
        ))
    );
    assert_eq!(
        conclude(BackendChoice::Remote, BackendOutcome::VerifyFailed(String::new()), 5),
        ProofResult::Failed(ProofFailure::BackendInvocationFailed(
            "Failed to verify network proof: ".to_string()
        ))
    );
}

#[test]
fn token_is_the_seconds_in_decimal() {
    assert_eq!(correlation_token(0), "net_proof_0");
    assert_eq!(correlation_token(7), "net_proof_7");
    assert_eq!(correlation_token(10), "net_proof_10");
    assert_eq!(correlation_token(1009), "net_proof_1009");
    assert_eq!(correlation_token(1_761_689_000), "net_proof_1761689000");
    assert_eq!(correlation_token(u64::MAX), "net_proof_18446744073709551615");
}

#[test]
fn failures_say_what_went_wrong() {
    assert_eq!(
        ProofFailure::MissingCredential.message(),
        "Please set your NETWORK_PRIVATE_KEY environment variable"
    );
    assert_eq!(
        ProofFailure::InvalidCredential.message(),
        "Please set a valid NETWORK_PRIVATE_KEY environment variable"
    );
    assert_eq!(
        ProofFailure::BackendInvocationFailed("Failed to generate local proof: x".to_string())
            .message(),
        "Failed to generate local proof: x"
    );
    assert_eq!(
        ProofFailure::BackendAborted.message(),
        "Network proof generation panicked - this usually indicates authentication or network issues"
    );
}
