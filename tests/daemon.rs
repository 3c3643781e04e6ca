use threadrunner::daemon::ResponseStream;
use threadrunner::model::{load_backend, BackendKind};
use threadrunner::state::{DaemonState, IdleOutcome};
use threadrunner::{Error, TokenResponse};

fn loaded_state() -> DaemonState {
    let mut state = DaemonState::default();
    assert!(state.needs_backend());
    state.install_backend(load_backend(BackendKind::Dummy, "/dev/null"), 0).unwrap();
    assert!(!state.needs_backend());
    state
}

fn drain(state: &mut DaemonState, now: u64) -> Vec<TokenResponse> {
    let mut stream = ResponseStream::new();
    let mut frames = Vec::new();
    while let Some(frame) = stream.next_frame(state, now).unwrap() {
        frames.push(frame);
    }
    assert_eq!(stream.next_frame(state, now).unwrap(), None);
    frames
}

#[test]
fn stream_ends_with_exactly_one_eos() {
    let mut state = loaded_state();
    state.start_generation("lorem ipsum", 0).unwrap();
    let frames = drain(&mut state, 7);
    assert_eq!(frames.len(), 28);
    let ends: Vec<usize> = (0..frames.len()).filter(|&i| frames[i].eos).collect();
    assert_eq!(ends, vec![27]);
    assert_eq!(frames[27].token, None);
    assert!(frames[..27].iter().all(|f| f.token.is_some()));
    assert!(frames.iter().any(|f| f.token.as_deref() == Some("lorem")));
    assert_eq!(frames[26].token.as_deref(), Some("ipsum."));
    assert_eq!(state.last_activity, 7);
}

#[test]
fn empty_prompt_reaches_eos() {
    let mut state = loaded_state();
    state.start_generation("", 0).unwrap();
    let frames = drain(&mut state, 1);
    assert_eq!(frames.len(), 26);
    assert!(frames[25].eos);
    state.start_generation("", 0).unwrap();
    let again = drain(&mut state, 2);
    assert_eq!(again, vec![TokenResponse { token: None, eos: true }]);
}

#[test]
fn request_without_backend_fails() {
    let mut state = DaemonState::default();
    assert!(matches!(state.start_generation("hi", 0), Err(Error::ModelLoad(_))));
    assert!(matches!(state.next_response(3), Err(Error::ModelLoad(_))));
    let mut stream = ResponseStream::new();
    assert!(stream.next_frame(&mut state, 3).is_err());
}

#[test]
fn failed_load_leaves_slot_empty() {
    let mut state = DaemonState::default();
    let r = state.install_backend(load_backend(BackendKind::Native, "/missing.gguf"), 0);
    assert!(matches!(r, Err(Error::ModelLoad(_))));
    assert!(state.needs_backend());
}

#[test]
fn idle_backend_is_evicted_and_reloaded() {
    let mut state = DaemonState::default();
    assert_eq!(state.evict_if_idle(10_000, 1), IdleOutcome::Empty);
    state.install_backend(load_backend(BackendKind::Dummy, "/dev/null"), 0).unwrap();
    state.start_generation("test prompt", 0).unwrap();
    drain(&mut state, 1_000);
    assert_eq!(state.evict_if_idle(1_500, 1), IdleOutcome::Kept);
    assert_eq!(state.evict_if_idle(2_000, 1), IdleOutcome::Kept);
    assert_eq!(state.evict_if_idle(3_000, 1), IdleOutcome::Unloaded);
    assert!(state.needs_backend());
    state.install_backend(load_backend(BackendKind::Dummy, "/dev/null"), 0).unwrap();
    state.start_generation("again", 0).unwrap();
    let frames = drain(&mut state, 3_100);
    assert_eq!(frames.last().unwrap().eos, true);
    assert_eq!(frames[0].token.as_deref(), Some("lorem"));
}

#[test]
fn default_idle_timeout_is_five_minutes() {
    let mut state = DaemonState::default();
    state.install_backend(load_backend(BackendKind::Dummy, "/dev/null"), 0).unwrap();
    let limit = threadrunner::state::IDLE_TIMEOUT_SECS;
    assert_eq!(limit, 300);
    assert_eq!(state.evict_if_idle(300_000, limit), IdleOutcome::Kept);
    assert_eq!(state.evict_if_idle(300_001, limit), IdleOutcome::Unloaded);
}

#[test]
fn fresh_load_after_long_idle_is_not_evicted() {
    let mut state = DaemonState::default();
    state.install_backend(load_backend(BackendKind::Dummy, "/dev/null"), 0).unwrap();
    assert_eq!(state.evict_if_idle(400_000, 300), IdleOutcome::Unloaded);
    state.install_backend(load_backend(BackendKind::Dummy, "/dev/null"), 900_000).unwrap();
    assert_eq!(state.last_activity, 900_000);
    assert_eq!(state.evict_if_idle(901_000, 300), IdleOutcome::Kept);
    state.start_generation("hi", 1_200_000).unwrap();
    assert_eq!(state.last_activity, 1_200_000);
    assert_eq!(state.evict_if_idle(1_200_500, 300), IdleOutcome::Kept);
    assert_eq!(state.next_response(1_200_600).unwrap().token.as_deref(), Some("lorem"));
}

#[test]
fn failed_prompt_keeps_last_activity() {
    let mut state = DaemonState::default();
    assert!(state.start_generation("x", 55).is_err());
    assert_eq!(state.last_activity, 0);
}
