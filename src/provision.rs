//! One provisioning attempt: mint a registration token, create the instance,
//! and revoke the token where creation fails.
use vstd::prelude::*;

verus! {

/// Where an attempt stands.
#[derive(Clone, Copy, Debug, PartialEq, Eq, Structural)]
pub enum Phase {
    /// Waiting for the registration token.
    Minting,
    /// Token minted; waiting for the instance.
    Creating,
    /// Instance creation failed; waiting for the token's revocation.
    Revoking,
    /// The attempt has reported its outcome.
    Finished,
}

/// What the outside world answered to the attempt's last request.
#[derive(Clone, Copy, Debug, PartialEq, Eq, Structural)]
pub enum Event {
    MintOk,
    MintFailed,
    CreateOk,
    CreateFailed,
    RevokeOk,
    RevokeFailed,
}

/// How an attempt ended.
#[derive(Clone, Copy, Debug, PartialEq, Eq, Structural)]
pub enum Outcome {
    /// The instance was requested with its token.
    Created,
    /// No token could be minted; nothing was created.
    MintFailed,
    /// The instance could not be created; the token's revocation was requested.
    CreateFailed,
}

/// What the attempt asks of the outside world next.
#[derive(Clone, Copy, Debug, PartialEq, Eq, Structural)]
pub enum Action {
    MintToken,
    CreateInstance,
    RevokeRegistration,
    /// Revocation failed: a warning to log; the outcome follows.
    WarnRevokeFailed(Outcome),
    Report(Outcome),
}

/// Whether `event` answers the request that an attempt in `phase` made.
pub open spec fn fits(phase: Phase, event: Event) -> bool {
    match phase {
        Phase::Minting => event == Event::MintOk || event == Event::MintFailed,
        Phase::Creating => event == Event::CreateOk || event == Event::CreateFailed,
        Phase::Revoking => event == Event::RevokeOk || event == Event::RevokeFailed,
        Phase::Finished => false,
    }
}

/// The attempt's next phase and action after `event`.
pub open spec fn step_spec(phase: Phase, event: Event) -> (Phase, Action) {
    match (phase, event) {
        (Phase::Minting, Event::MintOk) => (Phase::Creating, Action::CreateInstance),
        (Phase::Minting, _) => (Phase::Finished, Action::Report(Outcome::MintFailed)),
        (Phase::Creating, Event::CreateOk) => (Phase::Finished, Action::Report(Outcome::Created)),
        (Phase::Creating, _) => (Phase::Revoking, Action::RevokeRegistration),
        (Phase::Revoking, Event::RevokeOk) => (Phase::Finished, Action::Report(Outcome::CreateFailed)),
        (_, _) => (Phase::Finished, Action::WarnRevokeFailed(Outcome::CreateFailed)),
    }
}

/// The first phase and action of an attempt: mint the token.
pub fn start() -> (r: (Phase, Action))
    ensures
        r == (Phase::Minting, Action::MintToken),
{
    (Phase::Minting, Action::MintToken)
}

/// Advances an attempt in `phase` on the answer `event`.
pub fn step(phase: Phase, event: Event) -> (r: (Phase, Action))
    requires
        fits(phase, event),
    ensures
        r == step_spec(phase, event),
{
    match phase {
        Phase::Minting => match event {
            Event::MintOk => (Phase::Creating, Action::CreateInstance),
            _ => (Phase::Finished, Action::Report(Outcome::MintFailed)),
        },
        Phase::Creating => match event {
            Event::CreateOk => (Phase::Finished, Action::Report(Outcome::Created)),
            _ => (Phase::Revoking, Action::RevokeRegistration),
        },
        _ => match event {
            Event::RevokeOk => (Phase::Finished, Action::Report(Outcome::CreateFailed)),
            _ => (Phase::Finished, Action::WarnRevokeFailed(Outcome::CreateFailed)),
        },
    }
}

/// Whether `a` ends the attempt, and with which outcome.
pub open spec fn reported(a: Action) -> Option<Outcome> {
    match a {
        Action::Report(o) => Some(o),
        Action::WarnRevokeFailed(o) => Some(o),
        _ => None,
    }
}

/// Once the token is minted, a failed instance creation is followed by the
/// token's revocation before anything is reported, and whatever the
/// revocation answers, the attempt then reports the creation failure.
pub proof fn lemma_failed_create_revokes(revoke: Event)
    requires
        revoke == Event::RevokeOk || revoke == Event::RevokeFailed,
    ensures
        step_spec(Phase::Minting, Event::MintOk) == (Phase::Creating, Action::CreateInstance),
        step_spec(Phase::Creating, Event::CreateFailed) == (Phase::Revoking, Action::RevokeRegistration),
        reported(step_spec(Phase::Revoking, revoke).1) == Some(Outcome::CreateFailed),
        step_spec(Phase::Revoking, revoke).0 == Phase::Finished,
{
}

/// A failed mint ends the attempt at once, with nothing to revoke.
pub proof fn lemma_failed_mint_needs_no_cleanup()
    ensures
        step_spec(Phase::Minting, Event::MintFailed) == (Phase::Finished, Action::Report(Outcome::MintFailed)),
{
}

} // verus!
