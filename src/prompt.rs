use vstd::prelude::*;

verus! {

/// What an interactive prompt hands back: a value, a cancellation or
/// interruption by the operator, or any other failure of the terminal.
#[derive(Debug, PartialEq, Eq)]
pub enum PromptResult<T> {
    Value(T),
    Cancelled,
    Failed(String),
}

/// How the process ends: neutrally, or with a failure status.
#[derive(Clone, Copy, Debug, PartialEq, Eq, Structural)]
pub enum ExitStatus {
    Neutral,
    Failure,
}

pub open spec fn exit_code_of(status: ExitStatus) -> int {
    match status {
        ExitStatus::Neutral => 0,
        ExitStatus::Failure => -1,
    }
}

impl ExitStatus {
    /// The process exit code for this status.
    pub fn code(&self) -> (r: i32)
        ensures
            r as int == exit_code_of(*self),
    {
        match self {
            ExitStatus::Neutral => 0,
            ExitStatus::Failure => -1,
        }
    }
}

} // verus!
