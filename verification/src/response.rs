//! What a request is answered with.

use crate::orchestrator::{BackendChoice, ProofResult, ResultModel};
use vstd::prelude::*;

verus! {

/// The answer to one request: whether the solution was found valid, and
/// what became of the proof.
#[derive(Clone, Debug, PartialEq, Eq)]
pub struct SudokuResponse {
    pub is_valid: bool,
    pub proof_generated: bool,
    pub job_id: Option<String>,
    pub network_used: bool,
}

/// [`SudokuResponse`] with the token as a sequence of characters.
pub struct ResponseModel {
    pub is_valid: bool,
    pub proof_generated: bool,
    pub job_id: Option<Seq<char>>,
    pub network_used: bool,
}

impl View for SudokuResponse {
    type V = ResponseModel;

    open spec fn view(&self) -> ResponseModel {
        ResponseModel {
            is_valid: self.is_valid,
            proof_generated: self.proof_generated,
            job_id: match self.job_id {
                Some(id) => Some(id@),
                None => None,
            },
            network_used: self.network_used,
        }
    }
}

/// The answer where the solution was found invalid: no proof was asked
/// for, and none is reported.
pub open spec fn answer_for_invalid() -> ResponseModel {
    ResponseModel { is_valid: false, proof_generated: false, job_id: None, network_used: false }
}

/// The answer where the solution was found valid and the request for a
/// proof ended in `result`. The solution stays valid whatever became of
/// the proof; the network counts as used only where it delivered.
pub open spec fn answer_for_valid(result: ResultModel) -> ResponseModel {
    match result {
        ResultModel::Succeeded { proof, backend, token } => ResponseModel {
            is_valid: true,
            proof_generated: true,
            job_id: token,
            network_used: backend == BackendChoice::Remote,
        },
        ResultModel::Failed(_) => ResponseModel {
            is_valid: true,
            proof_generated: false,
            job_id: None,
            network_used: false,
        },
    }
}

impl SudokuResponse {
    /// Answers a request whose solution was found invalid.
    pub fn invalid() -> (response: SudokuResponse)
        ensures
            response@ == answer_for_invalid(),
    {
        SudokuResponse { is_valid: false, proof_generated: false, job_id: None, network_used: false }
    }

    /// Answers a request whose solution was found valid, with what became
    /// of the proof.
    pub fn valid(result: ProofResult) -> (response: SudokuResponse)
        ensures
            response@ == answer_for_valid(result@),
    {
        match result {
            ProofResult::Succeeded { proof, backend, token } => {
                let network_used = match backend {
                    BackendChoice::Local => false,
                    BackendChoice::Remote => true,
                };
                SudokuResponse { is_valid: true, proof_generated: true, job_id: token, network_used }
            },
            ProofResult::Failed(_) => SudokuResponse {
                is_valid: true,
                proof_generated: false,
                job_id: None,
                network_used: false,
            },
        }
    }
}

/// Every answer is definite about the proof: one is reported exactly when
/// the request for it succeeded, and a failure leaves the validity as it
/// was found. All failures are answered alike, whatever their reason.
pub proof fn lemma_answer_is_definite(result: ResultModel)
    ensures
        answer_for_valid(result).is_valid,
        answer_for_valid(result).proof_generated <==> result is Succeeded,
        answer_for_valid(result).network_used ==> answer_for_valid(result).proof_generated,
        answer_for_valid(result).job_id is Some ==> answer_for_valid(result).proof_generated,
        result is Failed ==> answer_for_valid(result) == (ResponseModel {
            is_valid: true,
            proof_generated: false,
            job_id: None,
            network_used: false,
        }),
{
}

} // verus!
