use easy_paste::lifecycle::{
    is_listening, start_listening, stop_listening, ListenerState, StartOutcome,
};

#[test]
fn new_listener_is_stopped() {
    let state: ListenerState<u32, u32> = ListenerState::new();
    assert!(!is_listening(&state));
}

#[test]
fn start_twice_launches_one_worker() {
    let mut state: ListenerState<&str, u32> = ListenerState::new();
    let mut launched = 0;
    let first = start_listening(&mut state, || {
        launched += 1;
        Some(("shutdown-1", 1))
    });
    assert_eq!(first, StartOutcome::Started);
    assert!(is_listening(&state));
    let second = start_listening(&mut state, || {
        launched += 1;
        Some(("shutdown-2", 2))
    });
    assert_eq!(second, StartOutcome::AlreadyRunning);
    assert!(is_listening(&state));
    assert_eq!(launched, 1);
    assert_eq!(stop_listening(&mut state), Some(("shutdown-1", 1)));
}

#[test]
fn stop_while_stopped_is_a_no_op() {
    let mut state: ListenerState<u8, u8> = ListenerState::new();
    assert_eq!(stop_listening(&mut state), None);
    assert!(!is_listening(&state));
    assert_eq!(stop_listening(&mut state), None);
    assert!(!is_listening(&state));
}

#[test]
fn failed_start_leaves_the_listener_stopped() {
    let mut state: ListenerState<u8, u8> = ListenerState::new();
    assert_eq!(start_listening(&mut state, || None), StartOutcome::Failed);
    assert!(!is_listening(&state));
    assert_eq!(start_listening(&mut state, || Some((1, 2))), StartOutcome::Started);
    assert!(is_listening(&state));
}

#[test]
fn listener_can_be_started_again_after_a_stop() {
    let mut state: ListenerState<u8, u8> = ListenerState::new();
    assert_eq!(start_listening(&mut state, || Some((1, 2))), StartOutcome::Started);
    assert_eq!(stop_listening(&mut state), Some((1, 2)));
    assert!(!is_listening(&state));
    assert_eq!(start_listening(&mut state, || Some((3, 4))), StartOutcome::Started);
    assert_eq!(stop_listening(&mut state), Some((3, 4)));
}
