use simulate_location_ffi::protocol::{is_permitted, next_state, SessionCall, SessionState};

#[test]
fn connect_then_use_then_free() {
    let s = next_state(SessionState::Unconnected, SessionCall::Connect, true);
    assert_eq!(s, SessionState::Live);
    assert!(is_permitted(s, SessionCall::SetLocation));
    assert!(is_permitted(s, SessionCall::ClearLocation));
    let s = next_state(s, SessionCall::SetLocation, true);
    let s = next_state(s, SessionCall::ClearLocation, true);
    assert_eq!(s, SessionState::Live);
    let s = next_state(s, SessionCall::Free, true);
    assert_eq!(s, SessionState::Freed);
}

#[test]
fn failed_connect_leaves_nothing() {
    let s = next_state(SessionState::Unconnected, SessionCall::Connect, false);
    assert_eq!(s, SessionState::Unconnected);
    assert!(!is_permitted(s, SessionCall::SetLocation));
}

#[test]
fn adopt_gives_live_session() {
    assert_eq!(
        next_state(SessionState::Unconnected, SessionCall::Adopt, true),
        SessionState::Live
    );
}

#[test]
fn failed_operations_keep_session_live() {
    assert_eq!(next_state(SessionState::Live, SessionCall::SetLocation, false), SessionState::Live);
    assert_eq!(next_state(SessionState::Live, SessionCall::ClearLocation, false), SessionState::Live);
}

#[test]
fn free_null_is_permitted() {
    assert!(is_permitted(SessionState::Unconnected, SessionCall::Free));
    assert_eq!(
        next_state(SessionState::Unconnected, SessionCall::Free, true),
        SessionState::Freed
    );
}

#[test]
fn freed_handle_permits_nothing() {
    for call in [
        SessionCall::Connect,
        SessionCall::Adopt,
        SessionCall::SetLocation,
        SessionCall::ClearLocation,
        SessionCall::Free,
    ] {
        assert!(!is_permitted(SessionState::Freed, call));
    }
}

#[test]
fn live_session_cannot_be_constructed_again() {
    assert!(!is_permitted(SessionState::Live, SessionCall::Connect));
    assert!(!is_permitted(SessionState::Live, SessionCall::Adopt));
    assert!(is_permitted(SessionState::Live, SessionCall::Free));
}
