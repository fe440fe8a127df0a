use sentiment_session::{
    decide_save, load_credential, AcquisitionAction, AcquisitionEvent, AcquisitionState,
    ClassificationRequest, ClassifyError, PromptResult, SaveDecision, CredentialStore, ExitStatus,
    PROBE_TEXT,
};

#[test]
fn acquisition_starts_by_asking() {
    let state = AcquisitionState::new();
    assert_eq!(state.action(), AcquisitionAction::AskForCredential { after_rejection: false });
}

#[test]
fn entered_candidate_is_probed_with_probe_text() {
    let state = AcquisitionState::new()
        .step(AcquisitionEvent::Entered(PromptResult::Value("hf_key".to_string())));
    assert_eq!(state, AcquisitionState::Validating { candidate: "hf_key".to_string() });
    assert_eq!(
        state.action(),
        AcquisitionAction::Probe(ClassificationRequest {
            text: PROBE_TEXT.to_string(),
            credential: "hf_key".to_string(),
        })
    );
}

#[test]
fn rejected_candidate_goes_back_to_prompting() {
    let state = AcquisitionState::Validating { candidate: "bad".to_string() }
        .step(AcquisitionEvent::Probed(Err(ClassifyError::ServiceRejected { status: 401 })));
    assert_eq!(state, AcquisitionState::Prompting { after_rejection: true });
    assert_eq!(state.action(), AcquisitionAction::AskForCredential { after_rejection: true });
}

#[test]
fn transport_failure_during_probe_goes_back_to_prompting() {
    let state = AcquisitionState::Validating { candidate: "key".to_string() }
        .step(AcquisitionEvent::Probed(Err(ClassifyError::Transport { detail: "timeout".to_string() })));
    assert_eq!(state, AcquisitionState::Prompting { after_rejection: true });
}

#[test]
fn cancelled_prompt_quits_neutrally() {
    let state = AcquisitionState::new().step(AcquisitionEvent::Entered(PromptResult::Cancelled));
    assert_eq!(state, AcquisitionState::Cancelled);
    assert_eq!(state.action(), AcquisitionAction::Quit);
}

#[test]
fn failed_prompt_is_fatal() {
    let state = AcquisitionState::new()
        .step(AcquisitionEvent::Entered(PromptResult::Failed("tty closed".to_string())));
    assert_eq!(state.action(), AcquisitionAction::Abort("tty closed".to_string()));
}

#[test]
fn unexpected_event_leaves_state_unchanged() {
    let state = AcquisitionState::new().step(AcquisitionEvent::Probed(Ok("[]".to_string())));
    assert_eq!(state, AcquisitionState::Prompting { after_rejection: false });
}

#[test]
fn two_rejections_then_acceptance() {
    let mut state = AcquisitionState::new();
    for candidate in ["a", "b"] {
        state = state.step(AcquisitionEvent::Entered(PromptResult::Value(candidate.to_string())));
        state = state.step(AcquisitionEvent::Probed(Err(ClassifyError::ServiceRejected { status: 403 })));
        assert!(!matches!(state, AcquisitionState::Acquired { .. }));
    }
    state = state.step(AcquisitionEvent::Entered(PromptResult::Value("c".to_string())));
    state = state.step(AcquisitionEvent::Probed(Ok("[]".to_string())));
    assert_eq!(state.action(), AcquisitionAction::Accept("c".to_string()));
}

#[test]
fn acquire_then_decline_to_save_leaves_file_absent() {
    let store = CredentialStore::from_contents(None);
    assert_eq!(load_credential(store.contents()), None);
    let state = AcquisitionState::new()
        .step(AcquisitionEvent::Entered(PromptResult::Value("hf_valid".to_string())))
        .step(AcquisitionEvent::Probed(Ok("[[]]".to_string())));
    assert_eq!(state, AcquisitionState::Acquired { credential: "hf_valid".to_string() });
    assert_eq!(decide_save(&PromptResult::Value(false)), SaveDecision::Skip);
    assert_eq!(store.contents(), None);
}

#[test]
fn save_decisions() {
    assert_eq!(decide_save(&PromptResult::Value(true)), SaveDecision::Save);
    assert_eq!(decide_save(&PromptResult::Cancelled), SaveDecision::Exit(ExitStatus::Neutral));
    assert_eq!(
        decide_save(&PromptResult::Failed("io".to_string())),
        SaveDecision::Exit(ExitStatus::Failure)
    );
}
