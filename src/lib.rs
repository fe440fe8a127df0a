//! Session logic of an interactive sentiment-classification client.
//!
//! The library decides; the program around it prompts, talks to the network
//! and touches the disk, then hands the results back as plain values.
pub mod acquisition;
pub mod classifier;
pub mod prompt;
pub mod protocol;
pub mod session;
pub mod store;

pub use acquisition::{AcquisitionAction, AcquisitionEvent, AcquisitionState};
pub use classifier::{
    interpret_reply, is_success, request_body, ClassificationRequest, ClassifyError, HttpReply,
    ENDPOINT, PROBE_TEXT,
};
pub use prompt::{ExitStatus, PromptResult};
pub use protocol::{
    choose_protocol, decide_save, online_feed_protocol, protocol_options, FeedOutcome,
    ProtocolOption, ProtocolStep, SaveDecision,
};
pub use session::{Session, SessionAction, SessionEvent, SessionState, Termination};
pub use store::{load_credential, CredentialStore};
