use vstd::prelude::*;

use crate::classifier::{ClassificationRequest, ClassifyError};
use crate::prompt::{ExitStatus, PromptResult};

verus! {

/// Why a session ended.
#[derive(Clone, Debug, PartialEq, Eq)]
pub enum Termination {
    /// The operator cancelled the text prompt.
    InputCancelled,
    /// The text prompt failed for another reason.
    InputFailed { detail: String },
    /// The operator answered no when asked to retry.
    RetryDeclined,
    /// The operator cancelled the retry question.
    ConfirmCancelled,
    /// The retry question failed for another reason.
    ConfirmFailed { detail: String },
}

/// Only a cancelled text prompt ends the process neutrally.
pub open spec fn termination_status(reason: Termination) -> ExitStatus {
    match reason {
        Termination::InputCancelled => ExitStatus::Neutral,
        _ => ExitStatus::Failure,
    }
}

impl Termination {
    /// A field-by-field copy.
    pub fn duplicate(&self) -> (r: Termination)
        ensures
            r == *self,
    {
        match self {
            Termination::InputCancelled => Termination::InputCancelled,
            Termination::InputFailed { detail } => Termination::InputFailed {
                detail: detail.clone(),
            },
            Termination::RetryDeclined => Termination::RetryDeclined,
            Termination::ConfirmCancelled => Termination::ConfirmCancelled,
            Termination::ConfirmFailed { detail } => Termination::ConfirmFailed {
                detail: detail.clone(),
            },
        }
    }

    /// The exit status that this ending calls for.
    pub fn status(&self) -> (r: ExitStatus)
        ensures
            r == termination_status(*self),
    {
        match self {
            Termination::InputCancelled => ExitStatus::Neutral,
            _ => ExitStatus::Failure,
        }
    }
}

/// Where the interactive session stands.
#[derive(Clone, Debug, PartialEq, Eq)]
pub enum SessionState {
    /// Waiting for the operator's text.
    AwaitInput,
    /// The text is being classified.
    Classifying { request: ClassificationRequest },
    /// The raw payload of a successful classification is shown.
    Reporting { payload: String },
    /// The classification failed; the operator decides whether to go on.
    ConfirmRetry { error: ClassifyError },
    /// The session is over.
    Terminated { reason: Termination },
}

/// What the program reports back after performing an action.
#[derive(Debug, PartialEq, Eq)]
pub enum SessionEvent {
    /// The result of the text prompt.
    Entered(PromptResult<String>),
    /// The outcome of the classification call.
    Classified(Result<String, ClassifyError>),
    /// The payload has been shown.
    Reported,
    /// The result of the retry question.
    Answered(PromptResult<bool>),
}

/// What the program is to do next.
#[derive(Clone, Debug, PartialEq, Eq)]
pub enum SessionAction {
    /// Ask the operator for text.
    AskForText,
    /// Make one classification call.
    Classify(ClassificationRequest),
    /// Show a successful payload.
    Report(String),
    /// Report the failure and ask once whether to try again.
    AskToRetry(ClassifyError),
    /// End the process for this reason.
    Exit(Termination),
}

/// The transition table of the session loop; `credential` goes with every
/// request. An event that the state does not wait for leaves it unchanged.
pub open spec fn session_next(
    state: SessionState,
    event: SessionEvent,
    credential: String,
) -> SessionState {
    match (state, event) {
        (SessionState::AwaitInput, SessionEvent::Entered(answer)) => match answer {
            PromptResult::Value(text) => SessionState::Classifying {
                request: ClassificationRequest { text, credential },
            },
            PromptResult::Cancelled => SessionState::Terminated {
                reason: Termination::InputCancelled,
            },
            PromptResult::Failed(detail) => SessionState::Terminated {
                reason: Termination::InputFailed { detail },
            },
        },
        (SessionState::Classifying { .. }, SessionEvent::Classified(outcome)) => match outcome {
            Ok(payload) => SessionState::Reporting { payload },
            Err(error) => SessionState::ConfirmRetry { error },
        },
        (SessionState::Reporting { .. }, SessionEvent::Reported) => SessionState::AwaitInput,
        (SessionState::ConfirmRetry { .. }, SessionEvent::Answered(answer)) => match answer {
            PromptResult::Value(true) => SessionState::AwaitInput,
            PromptResult::Value(false) => SessionState::Terminated {
                reason: Termination::RetryDeclined,
            },
            PromptResult::Cancelled => SessionState::Terminated {
                reason: Termination::ConfirmCancelled,
            },
            PromptResult::Failed(detail) => SessionState::Terminated {
                reason: Termination::ConfirmFailed { detail },
            },
        },
        (state, _) => state,
    }
}

/// The action that each state calls for.
pub open spec fn session_action(state: SessionState) -> SessionAction {
    match state {
        SessionState::AwaitInput => SessionAction::AskForText,
        SessionState::Classifying { request } => SessionAction::Classify(request),
        SessionState::Reporting { payload } => SessionAction::Report(payload),
        SessionState::ConfirmRetry { error } => SessionAction::AskToRetry(error),
        SessionState::Terminated { reason } => SessionAction::Exit(reason),
    }
}

/// The interactive session: an acquired credential, held unchanged for the
/// whole session, and the state of the loop.
pub struct Session {
    credential: String,
    state: SessionState,
}

impl Session {
    pub closed spec fn credential(&self) -> String {
        self.credential
    }

    pub closed spec fn state(&self) -> SessionState {
        self.state
    }

    /// A session that starts by waiting for input, with this credential.
    pub fn new(credential: String) -> (r: Session)
        ensures
            r.credential() == credential,
            r.state() == SessionState::AwaitInput,
    {
        Session { credential, state: SessionState::AwaitInput }
    }

    /// What the program is to do now.
    pub fn action(&self) -> (r: SessionAction)
        ensures
            r == session_action(self.state()),
    {
        match &self.state {
            SessionState::AwaitInput => SessionAction::AskForText,
            SessionState::Classifying { request } => SessionAction::Classify(request.duplicate()),
            SessionState::Reporting { payload } => SessionAction::Report(payload.clone()),
            SessionState::ConfirmRetry { error } => SessionAction::AskToRetry(error.duplicate()),
            SessionState::Terminated { reason } => SessionAction::Exit(reason.duplicate()),
        }
    }

    /// Moves the loop on by one event.
    pub fn step(self, event: SessionEvent) -> (r: Session)
        ensures
            r.credential() == self.credential(),
            r.state() == session_next(self.state(), event, self.credential()),
    {
        let Session { credential, state } = self;
        let next = match (state, event) {
            (SessionState::AwaitInput, SessionEvent::Entered(answer)) => match answer {
                PromptResult::Value(text) => SessionState::Classifying {
                    request: ClassificationRequest { text, credential: credential.clone() },
                },
                PromptResult::Cancelled => SessionState::Terminated {
                    reason: Termination::InputCancelled,
                },
                PromptResult::Failed(detail) => SessionState::Terminated {
                    reason: Termination::InputFailed { detail },
                },
            },
            (SessionState::Classifying { .. }, SessionEvent::Classified(outcome)) => {
                match outcome {
                    Ok(payload) => SessionState::Reporting { payload },
                    Err(error) => SessionState::ConfirmRetry { error },
                }
            },
            (SessionState::Reporting { .. }, SessionEvent::Reported) => SessionState::AwaitInput,
            (SessionState::ConfirmRetry { .. }, SessionEvent::Answered(answer)) => match answer {
                PromptResult::Value(retry) => {
                    if retry {
                        SessionState::AwaitInput
                    } else {
                        SessionState::Terminated { reason: Termination::RetryDeclined }
                    }
                },
                PromptResult::Cancelled => SessionState::Terminated {
                    reason: Termination::ConfirmCancelled,
                },
                PromptResult::Failed(detail) => SessionState::Terminated {
                    reason: Termination::ConfirmFailed { detail },
                },
            },
            (state, _) => state,
        };
        Session { credential, state: next }
    }
}

/// A successful classification is reported, and the loop then waits for the
/// next input with no other question in between.
pub proof fn lemma_success_reports_then_awaits(
    request: ClassificationRequest,
    payload: String,
    credential: String,
)
    ensures
        session_next(
            SessionState::Classifying { request },
            SessionEvent::Classified(Ok(payload)),
            credential,
        ) == (SessionState::Reporting { payload }),
        session_action(SessionState::Reporting { payload }) == SessionAction::Report(payload),
        session_next(SessionState::Reporting { payload }, SessionEvent::Reported, credential)
            == SessionState::AwaitInput,
        session_action(SessionState::AwaitInput) == SessionAction::AskForText,
{
}

/// A failed classification asks once whether to retry: whatever the answer,
/// the question is not asked again, only a yes returns to input, and any
/// other answer ends the process with a failure status.
pub proof fn lemma_failure_asks_once(
    request: ClassificationRequest,
    error: ClassifyError,
    answer: PromptResult<bool>,
    credential: String,
)
    ensures
        session_next(
            SessionState::Classifying { request },
            SessionEvent::Classified(Err(error)),
            credential,
        ) == (SessionState::ConfirmRetry { error }),
        session_action(SessionState::ConfirmRetry { error }) == SessionAction::AskToRetry(error),
        ({
            let after = session_next(
                SessionState::ConfirmRetry { error },
                SessionEvent::Answered(answer),
                credential,
            );
            &&& after !is ConfirmRetry
            &&& answer == PromptResult::Value(true) ==> after == SessionState::AwaitInput
            &&& answer != PromptResult::Value(true) ==> (after matches SessionState::Terminated {
                reason,
            } && termination_status(reason) == ExitStatus::Failure)
        }),
{
}

} // verus!
