use vstd::prelude::*;

use crate::prompt::{ExitStatus, PromptResult};

verus! {

/// Where the text to classify comes from, or leaving.
#[derive(Clone, Copy, Debug, PartialEq, Eq, Structural)]
pub enum ProtocolOption {
    Online,
    User,
    Quit,
}

/// The options offered at start-up, in menu order.
pub fn protocol_options() -> (r: Vec<ProtocolOption>)
    ensures
        r@ == seq![ProtocolOption::Online, ProtocolOption::User, ProtocolOption::Quit],
{
    vec![ProtocolOption::Online, ProtocolOption::User, ProtocolOption::Quit]
}

/// What the online feed produces: it is not implemented.
#[derive(Clone, Copy, Debug, PartialEq, Eq, Structural)]
pub enum FeedOutcome {
    NotImplemented,
}

/// The online feed, which does no work yet.
pub fn online_feed_protocol() -> (r: FeedOutcome)
    ensures
        r == FeedOutcome::NotImplemented,
{
    FeedOutcome::NotImplemented
}

/// What follows the protocol selection.
#[derive(Clone, Copy, Debug, PartialEq, Eq, Structural)]
pub enum ProtocolStep {
    /// Run the online feed.
    RunOnline,
    /// Run the interactive session.
    RunSession,
    /// End the process with this status.
    Exit(ExitStatus),
}

/// Quitting and a cancelled selection end neutrally; any other failure of
/// the prompt ends with a failure status.
pub open spec fn protocol_step_of(answer: PromptResult<ProtocolOption>) -> ProtocolStep {
    match answer {
        PromptResult::Value(ProtocolOption::Online) => ProtocolStep::RunOnline,
        PromptResult::Value(ProtocolOption::User) => ProtocolStep::RunSession,
        PromptResult::Value(ProtocolOption::Quit) => ProtocolStep::Exit(ExitStatus::Neutral),
        PromptResult::Cancelled => ProtocolStep::Exit(ExitStatus::Neutral),
        PromptResult::Failed(_) => ProtocolStep::Exit(ExitStatus::Failure),
    }
}

/// Decides what to run from the operator's protocol selection.
pub fn choose_protocol(answer: &PromptResult<ProtocolOption>) -> (r: ProtocolStep)
    ensures
        r == protocol_step_of(*answer),
{
    match answer {
        PromptResult::Value(ProtocolOption::Online) => ProtocolStep::RunOnline,
        PromptResult::Value(ProtocolOption::User) => ProtocolStep::RunSession,
        PromptResult::Value(ProtocolOption::Quit) => ProtocolStep::Exit(ExitStatus::Neutral),
        PromptResult::Cancelled => ProtocolStep::Exit(ExitStatus::Neutral),
        PromptResult::Failed(_) => ProtocolStep::Exit(ExitStatus::Failure),
    }
}

/// What to do with a freshly acquired credential.
#[derive(Clone, Copy, Debug, PartialEq, Eq, Structural)]
pub enum SaveDecision {
    /// Write it to the credential file.
    Save,
    /// Leave the credential file as it is.
    Skip,
    /// End the process with this status.
    Exit(ExitStatus),
}

/// A yes saves and a no skips; a cancelled question ends neutrally, and any
/// other failure ends with a failure status.
pub open spec fn save_decision_of(answer: PromptResult<bool>) -> SaveDecision {
    match answer {
        PromptResult::Value(true) => SaveDecision::Save,
        PromptResult::Value(false) => SaveDecision::Skip,
        PromptResult::Cancelled => SaveDecision::Exit(ExitStatus::Neutral),
        PromptResult::Failed(_) => SaveDecision::Exit(ExitStatus::Failure),
    }
}

/// Decides from the operator's answer whether to persist the credential.
pub fn decide_save(answer: &PromptResult<bool>) -> (r: SaveDecision)
    ensures
        r == save_decision_of(*answer),
{
    match answer {
        PromptResult::Value(save) => {
            if *save {
                SaveDecision::Save
            } else {
                SaveDecision::Skip
            }
        },
        PromptResult::Cancelled => SaveDecision::Exit(ExitStatus::Neutral),
        PromptResult::Failed(_) => SaveDecision::Exit(ExitStatus::Failure),
    }
}

} // verus!
