//! The decisions around one run of a proving backend.
//!
//! Producing a proof is the work of an engine outside this library, and a
//! slow one. What is decided here is everything around that run: which
//! backend a configuration selects, whether the remote backend may be
//! called at all, what is handed to the backend, and what the caller is
//! told once the run has ended, in whatever way it ended. The caller makes
//! the run itself, between [`plan`] and [`conclude`].

use crate::text::{chars_of, decimal, decimal_digits, same_text};
use crate::validator::completes;
use vstd::prelude::*;
use vstd::string::*;

verus! {

/// The backends a proof can be asked of.
#[derive(Clone, Copy, Debug, PartialEq, Eq, Structural)]
pub enum BackendChoice {
    /// The prover that runs on this machine.
    Local,
    /// The prover network, which wants a credential.
    Remote,
}

/// Why no proof was produced.
#[derive(Clone, Debug, PartialEq, Eq)]
pub enum ProofFailure {
    /// The remote backend was selected and no credential is set, or an
    /// empty one.
    MissingCredential,
    /// The credential is the placeholder that configuration templates
    /// carry.
    InvalidCredential,
    /// The backend returned an error; the text says at which step and what.
    BackendInvocationFailed(String),
    /// The backend's run ended abruptly instead of returning.
    BackendAborted,
}

/// What a request for a proof ended in.
#[derive(Clone, Debug, PartialEq, Eq)]
pub enum ProofResult {
    /// A proof was produced by `backend`. A proof from the remote backend
    /// comes with a token to find it again in logs.
    Succeeded { proof: Vec<u8>, backend: BackendChoice, token: Option<String> },
    /// No proof was produced.
    Failed(ProofFailure),
}

/// What the caller saw of one run of a backend.
#[derive(Clone, Debug, PartialEq, Eq)]
pub enum BackendOutcome {
    /// The backend returned a proof, and the check of that proof, where
    /// the backend makes one, passed.
    Proved(Vec<u8>),
    /// Producing the proof returned an error with this text.
    ProveFailed(String),
    /// The proof was produced, and checking it returned an error with this
    /// text.
    VerifyFailed(String),
    /// The run did not return: it ended abruptly and was caught.
    Aborted,
}

/// What is handed to a backend: the puzzle and its solution, as they came.
#[derive(Clone, Copy, Debug, PartialEq, Eq)]
pub struct ProofInput {
    pub board: [[u8; 9]; 9],
    pub solution: [[u8; 9]; 9],
}

/// What to do about a request for a proof.
#[derive(Clone, Debug, PartialEq, Eq)]
pub enum Plan {
    /// Run `backend` on `input`.
    Invoke { backend: BackendChoice, input: ProofInput },
    /// Run nothing; the request has failed for this reason.
    Refuse(ProofFailure),
}

/// [`ProofFailure`] with its text as a sequence of characters.
pub enum FailureModel {
    MissingCredential,
    InvalidCredential,
    BackendInvocationFailed(Seq<char>),
    BackendAborted,
}

/// [`ProofResult`] with its bytes and its text as sequences.
pub enum ResultModel {
    Succeeded { proof: Seq<u8>, backend: BackendChoice, token: Option<Seq<char>> },
    Failed(FailureModel),
}

/// [`BackendOutcome`] with its bytes and its text as sequences.
pub enum OutcomeModel {
    Proved(Seq<u8>),
    ProveFailed(Seq<char>),
    VerifyFailed(Seq<char>),
    Aborted,
}

/// [`Plan`] with the failure, if it holds one, as its view.
pub enum PlanModel {
    Invoke { backend: BackendChoice, input: ProofInput },
    Refuse(FailureModel),
}

impl View for ProofFailure {
    type V = FailureModel;

    open spec fn view(&self) -> FailureModel {
        match *self {
            ProofFailure::MissingCredential => FailureModel::MissingCredential,
            ProofFailure::InvalidCredential => FailureModel::InvalidCredential,
            ProofFailure::BackendInvocationFailed(detail) => FailureModel::BackendInvocationFailed(
                detail@,
            ),
            ProofFailure::BackendAborted => FailureModel::BackendAborted,
        }
    }
}

impl View for ProofResult {
    type V = ResultModel;

    open spec fn view(&self) -> ResultModel {
        match *self {
            ProofResult::Succeeded { proof, backend, token } => ResultModel::Succeeded {
                proof: proof@,
                backend,
                token: match token {
                    Some(t) => Some(t@),
                    None => None,
                },
            },
            ProofResult::Failed(failure) => ResultModel::Failed(failure@),
        }
    }
}

impl View for BackendOutcome {
    type V = OutcomeModel;

    open spec fn view(&self) -> OutcomeModel {
        match *self {
            BackendOutcome::Proved(proof) => OutcomeModel::Proved(proof@),
            BackendOutcome::ProveFailed(detail) => OutcomeModel::ProveFailed(detail@),
            BackendOutcome::VerifyFailed(detail) => OutcomeModel::VerifyFailed(detail@),
            BackendOutcome::Aborted => OutcomeModel::Aborted,
        }
    }
}

impl View for Plan {
    type V = PlanModel;

    open spec fn view(&self) -> PlanModel {
        match *self {
            Plan::Invoke { backend, input } => PlanModel::Invoke { backend, input },
            Plan::Refuse(failure) => PlanModel::Refuse(failure@),
        }
    }
}

/// The setting that selects the remote backend.
pub open spec fn remote_setting() -> Seq<char> {
    "network"@
}

/// The credential that configuration templates carry in place of a real
/// one.
pub open spec fn placeholder_credential() -> Seq<char> {
    "YOUR_PRIVATE_KEY_HERE"@
}

/// The backend that a setting selects: the remote one for exactly
/// [`remote_setting`], the local one for anything else and for no setting.
pub open spec fn selected(setting: Option<Seq<char>>) -> BackendChoice {
    if setting == Some(remote_setting()) {
        BackendChoice::Remote
    } else {
        BackendChoice::Local
    }
}

/// What is wrong with a credential, if anything: a credential that is not
/// set or is empty is missing, the placeholder is invalid, any other
/// credential is passed on unexamined.
pub open spec fn credential_flaw(credential: Option<Seq<char>>) -> Option<FailureModel> {
    match credential {
        None => Some(FailureModel::MissingCredential),
        Some(c) => if c.len() == 0 {
            Some(FailureModel::MissingCredential)
        } else if c == placeholder_credential() {
            Some(FailureModel::InvalidCredential)
        } else {
            None
        },
    }
}

/// The plan for a request: the local backend is always run; the remote
/// backend is run unless the credential has a flaw. The backend gets the
/// puzzle and the solution unchanged.
pub open spec fn planned(
    board: [[u8; 9]; 9],
    solution: [[u8; 9]; 9],
    choice: BackendChoice,
    credential: Option<Seq<char>>,
) -> PlanModel {
    match choice {
        BackendChoice::Local => PlanModel::Invoke {
            backend: choice,
            input: (ProofInput { board, solution }),
        },
        BackendChoice::Remote => match credential_flaw(credential) {
            Some(flaw) => PlanModel::Refuse(flaw),
            None => PlanModel::Invoke { backend: choice, input: (ProofInput { board, solution }) },
        },
    }
}

/// The token that goes with a remote proof obtained at `now_secs` seconds
/// after the epoch.
pub open spec fn token_text(now_secs: u64) -> Seq<char> {
    "net_proof_"@ + decimal_digits(now_secs as nat)
}

/// How the text of a failure to produce a proof begins.
pub open spec fn prove_failure_prefix(backend: BackendChoice) -> Seq<char> {
    match backend {
        BackendChoice::Local => "Failed to generate local proof: "@,
        BackendChoice::Remote => "Failed to generate network proof: "@,
    }
}

/// How the text of a failure to check a fresh proof begins.
pub open spec fn verify_failure_prefix(backend: BackendChoice) -> Seq<char> {
    match backend {
        BackendChoice::Local => "Failed to verify local proof: "@,
        BackendChoice::Remote => "Failed to verify network proof: "@,
    }
}

/// What a run of `backend` that ended in `outcome` at `now_secs` amounts to.
pub open spec fn conclusion(backend: BackendChoice, outcome: OutcomeModel, now_secs: u64) -> ResultModel {
    match outcome {
        OutcomeModel::Proved(proof) => ResultModel::Succeeded {
            proof,
            backend,
            token: match backend {
                BackendChoice::Local => None,
                BackendChoice::Remote => Some(token_text(now_secs)),
            },
        },
        OutcomeModel::ProveFailed(detail) => ResultModel::Failed(
            FailureModel::BackendInvocationFailed(prove_failure_prefix(backend) + detail),
        ),
        OutcomeModel::VerifyFailed(detail) => ResultModel::Failed(
            FailureModel::BackendInvocationFailed(verify_failure_prefix(backend) + detail),
        ),
        OutcomeModel::Aborted => ResultModel::Failed(FailureModel::BackendAborted),
    }
}

/// Selects the backend from the configuration's setting, if there is one.
pub fn select_backend(setting: Option<&str>) -> (choice: BackendChoice)
    ensures
        choice == selected(chars_of(setting)),
{
    match setting {
        Some(text) => {
            if same_text(text, "network") {
                BackendChoice::Remote
            } else {
                BackendChoice::Local
            }
        },
        None => BackendChoice::Local,
    }
}

/// Examines the credential for the remote backend before any use of it.
pub fn check_credential(credential: Option<&str>) -> (checked: Result<(), ProofFailure>)
    ensures
        match checked {
            Ok(_) => credential_flaw(chars_of(credential)) is None,
            Err(failure) => credential_flaw(chars_of(credential)) == Some(failure@),
        },
{
    match credential {
        None => Err(ProofFailure::MissingCredential),
        Some(text) => {
            if text.is_empty() {
                Err(ProofFailure::MissingCredential)
            } else if same_text(text, "YOUR_PRIVATE_KEY_HERE") {
                Err(ProofFailure::InvalidCredential)
            } else {
                Ok(())
            }
        },
    }
}

/// Decides what to do about a request for a proof that `solution`
/// completes `board`.
///
/// The pair is not checked again: it has to be one that the validator
/// accepted. Nothing is run from here; where the plan is to invoke a
/// backend, the caller runs it on the plan's input and hands what it saw to
/// [`conclude`].
pub fn plan(
    board: [[u8; 9]; 9],
    solution: [[u8; 9]; 9],
    choice: BackendChoice,
    credential: Option<&str>,
) -> (plan: Plan)
    requires
        completes(board, solution),
    ensures
        plan@ == planned(board, solution, choice, chars_of(credential)),
{
    match choice {
        BackendChoice::Local => Plan::Invoke { backend: choice, input: ProofInput { board, solution } },
        BackendChoice::Remote => match check_credential(credential) {
            Ok(_) => Plan::Invoke { backend: choice, input: ProofInput { board, solution } },
            Err(failure) => Plan::Refuse(failure),
        },
    }
}

/// Derives the token for a remote proof from the time it was obtained at.
pub fn correlation_token(now_secs: u64) -> (token: String)
    ensures
        token@ == token_text(now_secs),
{
    String::from_str("net_proof_").concat(decimal(now_secs).as_str())
}

/// Turns what the caller saw of a backend's run into the result of the
/// request.
///
/// Every outcome has a result: an error that the backend returned and a
/// run that ended abruptly both become an ordinary failure. `now_secs` is
/// the time of the call, in seconds after the epoch; only a proof from the
/// remote backend makes use of it.
pub fn conclude(backend: BackendChoice, outcome: BackendOutcome, now_secs: u64) -> (result:
    ProofResult)
    ensures
        result@ == conclusion(backend, outcome@, now_secs),
{
    match outcome {
        BackendOutcome::Proved(proof) => {
            let token = match backend {
                BackendChoice::Local => None,
                BackendChoice::Remote => Some(correlation_token(now_secs)),
            };
            ProofResult::Succeeded { proof, backend, token }
        },
        BackendOutcome::ProveFailed(detail) => {
            let text = match backend {
                BackendChoice::Local => String::from_str("Failed to generate local proof: "),
                BackendChoice::Remote => String::from_str("Failed to generate network proof: "),
            };
            ProofResult::Failed(ProofFailure::BackendInvocationFailed(text.concat(detail.as_str())))
        },
        BackendOutcome::VerifyFailed(detail) => {
            let text = match backend {
                BackendChoice::Local => String::from_str("Failed to verify local proof: "),
                BackendChoice::Remote => String::from_str("Failed to verify network proof: "),
            };
            ProofResult::Failed(ProofFailure::BackendInvocationFailed(text.concat(detail.as_str())))
        },
        BackendOutcome::Aborted => ProofResult::Failed(ProofFailure::BackendAborted),
    }
}

/// The text that tells a person of a failure.
pub open spec fn failure_text(failure: FailureModel) -> Seq<char> {
    match failure {
        FailureModel::MissingCredential => "Please set your NETWORK_PRIVATE_KEY environment variable"@,
        FailureModel::InvalidCredential => "Please set a valid NETWORK_PRIVATE_KEY environment variable"@,
        FailureModel::BackendInvocationFailed(detail) => detail,
        FailureModel::BackendAborted => "Network proof generation panicked - this usually indicates authentication or network issues"@,
    }
}

impl ProofFailure {
    /// Says in words what went wrong.
    pub fn message(&self) -> (text: String)
        ensures
            text@ == failure_text(self@),
    {
        match self {
            ProofFailure::MissingCredential => String::from_str(
                "Please set your NETWORK_PRIVATE_KEY environment variable",
            ),
            ProofFailure::InvalidCredential => String::from_str(
                "Please set a valid NETWORK_PRIVATE_KEY environment variable",
            ),
            ProofFailure::BackendInvocationFailed(detail) => detail.clone(),
            ProofFailure::BackendAborted => String::from_str(
                "Network proof generation panicked - this usually indicates authentication or network issues",
            ),
        }
    }
}

/// A run that ended abruptly never reaches the caller as anything but an
/// ordinary failure, whichever backend it was and whenever it happened.
pub proof fn lemma_abort_becomes_failure(backend: BackendChoice, now_secs: u64)
    ensures
        conclusion(backend, OutcomeModel::Aborted, now_secs) == ResultModel::Failed(
            FailureModel::BackendAborted,
        ),
{
}

/// A request succeeds exactly when the backend handed back a proof, and
/// then with that proof and under that backend's name. Every other outcome
/// is a failure of the backend, never one of the credential.
pub proof fn lemma_success_needs_proof(backend: BackendChoice, outcome: OutcomeModel, now_secs: u64)
    ensures
        conclusion(backend, outcome, now_secs) is Succeeded <==> outcome is Proved,
        outcome matches OutcomeModel::Proved(proof) ==> conclusion(backend, outcome, now_secs)
            matches ResultModel::Succeeded { proof: p, backend: b, .. } && p == proof && b
            == backend,
        conclusion(backend, outcome, now_secs) matches ResultModel::Failed(failure) ==> failure
            is BackendInvocationFailed || failure is BackendAborted,
{
}

/// A proof carries a token exactly when it came from the remote backend.
pub proof fn lemma_token_marks_remote(backend: BackendChoice, proof: Seq<u8>, now_secs: u64)
    ensures
        conclusion(backend, OutcomeModel::Proved(proof), now_secs) matches ResultModel::Succeeded {
            token,
            ..
        } && (token is Some <==> backend == BackendChoice::Remote),
{
}

/// With a credential that is not set, empty, or the placeholder, the
/// remote backend is never invoked: the plan is to refuse, for a missing
/// credential in the first two cases and an invalid one in the third.
pub proof fn lemma_flawed_credential_refuses(
    board: [[u8; 9]; 9],
    solution: [[u8; 9]; 9],
    credential: Option<Seq<char>>,
)
    requires
        credential is None || credential == Some(Seq::<char>::empty()) || credential == Some(
            placeholder_credential(),
        ),
    ensures
        planned(board, solution, BackendChoice::Remote, credential) is Refuse,
        credential is None || credential == Some(Seq::<char>::empty()) ==> planned(
            board,
            solution,
            BackendChoice::Remote,
            credential,
        ) == PlanModel::Refuse(FailureModel::MissingCredential),
        credential == Some(placeholder_credential()) ==> planned(
            board,
            solution,
            BackendChoice::Remote,
            credential,
        ) == PlanModel::Refuse(FailureModel::InvalidCredential),
{
    reveal_strlit("YOUR_PRIVATE_KEY_HERE");
}

/// The local backend needs no credential: whatever is or is not set, it is
/// invoked, on the pair as it came.
pub proof fn lemma_local_always_invoked(
    board: [[u8; 9]; 9],
    solution: [[u8; 9]; 9],
    credential: Option<Seq<char>>,
)
    ensures
        planned(board, solution, BackendChoice::Local, credential) == (PlanModel::Invoke {
            backend: BackendChoice::Local,
            input: (ProofInput { board, solution }),
        }),
{
}

} // verus!
