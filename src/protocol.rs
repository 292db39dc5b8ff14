use vstd::prelude::*;

verus! {

/// Where a session stands in its lifecycle, as seen through one handle pointer.
#[derive(Clone, Copy, Debug, PartialEq, Eq, Structural)]
pub enum SessionState {
    /// No handle exists yet (or the pointer is null).
    Unconnected,
    /// The handle is valid; `set` and `clear` may be called on it.
    Live,
    /// The handle was freed; any further use of it is outside the contract.
    Freed,
}

/// The calls of the boundary that move a session through its lifecycle.
#[derive(Clone, Copy, Debug, PartialEq, Eq, Structural)]
pub enum SessionCall {
    /// Negotiate a new session through a provider.
    Connect,
    /// Adopt an already open connection as a new session.
    Adopt,
    /// Push a simulated coordinate.
    SetLocation,
    /// Remove the simulated coordinate.
    ClearLocation,
    /// Destroy the session.
    Free,
}

/// The call may be made in this state; any other use is a caller's contract
/// violation, which the boundary does not detect.
pub open spec fn call_permitted(state: SessionState, call: SessionCall) -> bool {
    match call {
        SessionCall::Connect | SessionCall::Adopt => state is Unconnected,
        SessionCall::SetLocation | SessionCall::ClearLocation => state is Live,
        SessionCall::Free => !(state is Freed),
    }
}

/// The state after a permitted call, given whether it reported success.
/// Failures are recoverable: a failed constructor leaves no session behind and a
/// failed `set` or `clear` leaves the session live. `Free` cannot fail.
pub open spec fn state_after(state: SessionState, call: SessionCall, succeeded: bool) -> SessionState {
    match call {
        SessionCall::Connect | SessionCall::Adopt => if succeeded {
            SessionState::Live
        } else {
            SessionState::Unconnected
        },
        SessionCall::SetLocation | SessionCall::ClearLocation => SessionState::Live,
        SessionCall::Free => SessionState::Freed,
    }
}

/// Computes the state that a permitted call leads to.
pub fn next_state(state: SessionState, call: SessionCall, succeeded: bool) -> (r: SessionState)
    requires
        call_permitted(state, call),
    ensures
        r == state_after(state, call, succeeded),
{
    match call {
        SessionCall::Connect | SessionCall::Adopt => {
            if succeeded {
                SessionState::Live
            } else {
                SessionState::Unconnected
            }
        },
        SessionCall::SetLocation | SessionCall::ClearLocation => SessionState::Live,
        SessionCall::Free => SessionState::Freed,
    }
}

/// Tells whether the call may be made in this state.
pub fn is_permitted(state: SessionState, call: SessionCall) -> (r: bool)
    ensures
        r == call_permitted(state, call),
{
    match call {
        SessionCall::Connect | SessionCall::Adopt => state == SessionState::Unconnected,
        SessionCall::SetLocation | SessionCall::ClearLocation => state == SessionState::Live,
        SessionCall::Free => state != SessionState::Freed,
    }
}

/// A session obtained from a successful `connect` is live, and `set`, `clear` and
/// `free` may all be called on it.
pub proof fn lemma_connected_session_usable()
    ensures
        state_after(SessionState::Unconnected, SessionCall::Connect, true) == SessionState::Live,
        call_permitted(SessionState::Live, SessionCall::SetLocation),
        call_permitted(SessionState::Live, SessionCall::ClearLocation),
        call_permitted(SessionState::Live, SessionCall::Free),
{
}

/// `free` on a null handle is permitted and cannot fail; nothing can be called on
/// a handle afterwards.
pub proof fn lemma_free_null_permitted()
    ensures
        call_permitted(SessionState::Unconnected, SessionCall::Free),
        state_after(SessionState::Unconnected, SessionCall::Free, true) == state_after(
            SessionState::Unconnected,
            SessionCall::Free,
            false,
        ),
{
}

/// `set` followed by `clear` on a live session, whatever each reports, leaves the
/// session live, so a further `set` is permitted.
pub proof fn lemma_set_then_clear_keeps_live(set_ok: bool, clear_ok: bool)
    ensures
        ({
            let s1 = state_after(SessionState::Live, SessionCall::SetLocation, set_ok);
            let s2 = state_after(s1, SessionCall::ClearLocation, clear_ok);
            &&& call_permitted(s1, SessionCall::ClearLocation)
            &&& s2 == SessionState::Live
            &&& call_permitted(s2, SessionCall::SetLocation)
        }),
{
}

/// A failed `set` or `clear` (an invalid argument or a device failure) leaves the
/// session live, in the state it was in before the call.
pub proof fn lemma_failed_operation_keeps_live(call: SessionCall)
    requires
        call is SetLocation || call is ClearLocation,
    ensures
        state_after(SessionState::Live, call, false) == SessionState::Live,
{
}

/// A freed handle is terminal: no call, a second `free` included, is permitted on it.
pub proof fn lemma_freed_is_terminal(call: SessionCall)
    ensures
        !call_permitted(SessionState::Freed, call),
{
}

/// Every call permitted from a state other than `Freed` leads to a state other
/// than `Freed`, except `free` itself: a session is destroyed exactly once.
pub proof fn lemma_only_free_destroys(state: SessionState, call: SessionCall, succeeded: bool)
    requires
        call_permitted(state, call),
    ensures
        (state_after(state, call, succeeded) is Freed) <==> (call is Free),
{
}

} // verus!
