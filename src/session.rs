//! The decision taken each time the compute provider's session is needed.
use vstd::prelude::*;

verus! {

/// Seconds before expiry within which a session is refreshed ahead of time.
pub const REFRESH_LOOKAHEAD_SECS: i64 = 10;

/// The state of the session's credentials, as seen with the lookahead.
#[derive(Clone, Copy, Debug, PartialEq, Eq, Structural)]
pub enum AuthStatus {
    Valid,
    Expired,
    AboutToExpire,
    Unset,
}

/// What to do with the session before using it.
#[derive(Clone, Copy, Debug, PartialEq, Eq, Structural)]
pub enum SessionAction {
    /// Use it as it is, with no I/O.
    Use,
    /// Re-authorize and re-discover the compute endpoint first.
    Refresh,
}

/// Why no session can be handed out.
#[derive(Clone, Copy, Debug, PartialEq, Eq, Structural)]
pub enum SessionError {
    /// No session was established at startup.
    MissingSession,
    /// The refresh failed; the current operation fails with it.
    RefreshFailed,
}

/// The decision for a session that is present or not, with its credential state.
pub open spec fn session_decision(present: bool, auth: Option<AuthStatus>) -> Result<SessionAction, SessionError> {
    if !present {
        Err(SessionError::MissingSession)
    } else {
        match auth {
            Some(AuthStatus::Expired) | Some(AuthStatus::AboutToExpire) => Ok(SessionAction::Refresh),
            _ => Ok(SessionAction::Use),
        }
    }
}

/// Decides whether a session can be used as it is, needs a refresh, or is missing.
pub fn session_action(present: bool, auth: Option<AuthStatus>) -> (r: Result<SessionAction, SessionError>)
    ensures
        r == session_decision(present, auth),
{
    if !present {
        return Err(SessionError::MissingSession);
    }
    match auth {
        Some(AuthStatus::Expired) | Some(AuthStatus::AboutToExpire) => Ok(SessionAction::Refresh),
        _ => Ok(SessionAction::Use),
    }
}

/// The session after a refresh whose success is `refreshed`: ready, or the
/// operation that needed it fails.
pub fn after_refresh(refreshed: bool) -> (r: Result<SessionAction, SessionError>)
    ensures
        r == (if refreshed { Ok(SessionAction::Use) } else { Err::<SessionAction, SessionError>(SessionError::RefreshFailed) }),
{
    if refreshed {
        Ok(SessionAction::Use)
    } else {
        Err(SessionError::RefreshFailed)
    }
}

} // verus!
