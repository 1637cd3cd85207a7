use sudoku_lib::orchestrator::{BackendChoice, ProofFailure, ProofResult};
use sudoku_lib::response::SudokuResponse;

#[test]
fn invalid_solution_reports_no_proof() {
    assert_eq!(
        SudokuResponse::invalid(),
        SudokuResponse { is_valid: false, proof_generated: false, job_id: None, network_used: false }
    );
}

#[test]
fn local_proof_is_reported_without_job() {
    let result =
        ProofResult::Succeeded { proof: vec![1], backend: BackendChoice::Local, token: None };
    assert_eq!(
        SudokuResponse::valid(result),
        SudokuResponse { is_valid: true, proof_generated: true, job_id: None, network_used: false }
    );
}

#[test]
fn remote_proof_is_reported_with_its_job() {
    let result = ProofResult::Succeeded {
        proof: vec![1],
        backend: BackendChoice::Remote,
        token: Some("net_proof_12".to_string()),
    };
    assert_eq!(
        SudokuResponse::valid(result),
        SudokuResponse {
            is_valid: true,
            proof_generated: true,
            job_id: Some("net_proof_12".to_string()),
            network_used: true,
        }
    );
}

#[test]
fn failed_proof_leaves_the_solution_valid() {
    let failures = [
        ProofFailure::MissingCredential,
        ProofFailure::InvalidCredential,
        ProofFailure::BackendInvocationFailed("Failed to generate network proof: x".to_string()),
        ProofFailure::BackendAborted,
    ];
    for failure in failures {
        assert_eq!(
            SudokuResponse::valid(ProofResult::Failed(failure)),
            SudokuResponse {
                is_valid: true,
                proof_generated: false,
                job_id: None,
                network_used: false,
            }
        );
    }
}
