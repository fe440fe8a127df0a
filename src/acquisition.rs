use vstd::prelude::*;

use crate::classifier::{ClassificationRequest, ClassifyError, PROBE_TEXT};
use crate::prompt::{ExitStatus, PromptResult};

verus! {

/// Where the acquisition of a credential stands.
#[derive(Clone, Debug, PartialEq, Eq)]
pub enum AcquisitionState {
    /// Waiting for the operator to enter a candidate; `after_rejection` says
    /// that the previous candidate was refused.
    Prompting { after_rejection: bool },
    /// The candidate is being checked with a probe call.
    Validating { candidate: String },
    /// The credential was accepted by the service.
    Acquired { credential: String },
    /// The operator cancelled the prompt.
    Cancelled,
    /// The prompt failed for another reason.
    Fatal { detail: String },
}

/// What the program reports back after performing an action.
#[derive(Debug, PartialEq, Eq)]
pub enum AcquisitionEvent {
    /// The result of the credential prompt.
    Entered(PromptResult<String>),
    /// The result of the probe call.
    Probed(Result<String, ClassifyError>),
}

/// What the program is to do next.
#[derive(Clone, Debug, PartialEq, Eq)]
pub enum AcquisitionAction {
    /// Ask for a credential, saying first that the last one was refused
    /// when `after_rejection` holds.
    AskForCredential { after_rejection: bool },
    /// Classify the probe text with the candidate credential.
    Probe(ClassificationRequest),
    /// Hand the validated credential on.
    Accept(String),
    /// End the process neutrally.
    Quit,
    /// End the process with a failure status, reporting the detail.
    Abort(String),
}

/// The transition table of credential acquisition. An event that the state
/// does not wait for leaves it unchanged.
pub open spec fn acquisition_next(state: AcquisitionState, event: AcquisitionEvent) -> AcquisitionState {
    match (state, event) {
        (AcquisitionState::Prompting { .. }, AcquisitionEvent::Entered(answer)) => match answer {
            PromptResult::Value(candidate) => AcquisitionState::Validating { candidate },
            PromptResult::Cancelled => AcquisitionState::Cancelled,
            PromptResult::Failed(detail) => AcquisitionState::Fatal { detail },
        },
        (AcquisitionState::Validating { candidate }, AcquisitionEvent::Probed(outcome)) => match outcome {
            Ok(_) => AcquisitionState::Acquired { credential: candidate },
            Err(_) => AcquisitionState::Prompting { after_rejection: true },
        },
        (state, _) => state,
    }
}

/// The action that each state calls for: a probe sends the fixed probe text
/// with the candidate as its credential.
pub open spec fn is_acquisition_action(state: AcquisitionState, action: AcquisitionAction) -> bool {
    match state {
        AcquisitionState::Prompting { after_rejection } => action
            == AcquisitionAction::AskForCredential { after_rejection },
        AcquisitionState::Validating { candidate } => {
            &&& action matches AcquisitionAction::Probe(request)
            &&& request.text@ == PROBE_TEXT@
            &&& request.credential == candidate
        },
        AcquisitionState::Acquired { credential } => action == AcquisitionAction::Accept(credential),
        AcquisitionState::Cancelled => action == AcquisitionAction::Quit,
        AcquisitionState::Fatal { detail } => action == AcquisitionAction::Abort(detail),
    }
}

impl AcquisitionState {
    /// The state in which acquisition begins.
    pub fn new() -> (r: AcquisitionState)
        ensures
            r == (AcquisitionState::Prompting { after_rejection: false }),
    {
        AcquisitionState::Prompting { after_rejection: false }
    }

    /// What the program is to do in this state.
    pub fn action(&self) -> (r: AcquisitionAction)
        ensures
            is_acquisition_action(*self, r),
    {
        match self {
            AcquisitionState::Prompting { after_rejection } => AcquisitionAction::AskForCredential {
                after_rejection: *after_rejection,
            },
            AcquisitionState::Validating { candidate } => AcquisitionAction::Probe(
                ClassificationRequest {
                    text: String::from_str(PROBE_TEXT),
                    credential: candidate.clone(),
                },
            ),
            AcquisitionState::Acquired { credential } => AcquisitionAction::Accept(credential.clone()),
            AcquisitionState::Cancelled => AcquisitionAction::Quit,
            AcquisitionState::Fatal { detail } => AcquisitionAction::Abort(detail.clone()),
        }
    }

    /// The state that follows this one once `event` has come in.
    pub fn step(self, event: AcquisitionEvent) -> (r: AcquisitionState)
        ensures
            r == acquisition_next(self, event),
    {
        match (self, event) {
            (AcquisitionState::Prompting { .. }, AcquisitionEvent::Entered(answer)) => match answer {
                PromptResult::Value(candidate) => AcquisitionState::Validating { candidate },
                PromptResult::Cancelled => AcquisitionState::Cancelled,
                PromptResult::Failed(detail) => AcquisitionState::Fatal { detail },
            },
            (AcquisitionState::Validating { candidate }, AcquisitionEvent::Probed(outcome)) => {
                match outcome {
                    Ok(_) => AcquisitionState::Acquired { credential: candidate },
                    Err(_) => AcquisitionState::Prompting { after_rejection: true },
                }
            },
            (state, _) => state,
        }
    }
}

/// A candidate that fails validation sends acquisition back to the prompt,
/// with the rejection noted, and is not accepted.
pub proof fn lemma_rejected_candidate_reprompts(candidate: String, error: ClassifyError)
    ensures
        acquisition_next(
            AcquisitionState::Validating { candidate },
            AcquisitionEvent::Probed(Err(error)),
        ) == (AcquisitionState::Prompting { after_rejection: true }),
{
}

/// A credential becomes acquired only from validating that very candidate
/// with a probe that succeeded.
pub proof fn lemma_acquired_only_after_probe(
    state: AcquisitionState,
    event: AcquisitionEvent,
    credential: String,
)
    requires
        state !is Acquired,
        acquisition_next(state, event) == (AcquisitionState::Acquired { credential }),
    ensures
        state == (AcquisitionState::Validating { candidate: credential }),
        event matches AcquisitionEvent::Probed(outcome) && outcome is Ok,
{
}

} // verus!
