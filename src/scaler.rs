//! The per-pool scale-up decision and the bounded-concurrency schedule of
//! provisioning attempts.
use vstd::prelude::*;
use crate::inventory::{idle_count, idle_of};
use crate::model::{Pool, Registration};

verus! {

/// Most provisioning attempts of one pool in flight at any instant.
pub const MAX_IN_FLIGHT: usize = 4;

/// How many attempts a pool needs: the shortfall of idle runners, or zero.
pub open spec fn deficit_of(min_ready: int, idle: int) -> int {
    if min_ready > idle {
        min_ready - idle
    } else {
        0
    }
}

/// The shortfall between a desired idle count and the observed one.
pub fn deficit(min_ready: u32, idle: usize) -> (r: u32)
    ensures
        r == deficit_of(min_ready as int, idle as int),
{
    if (min_ready as usize) > idle {
        min_ready - (idle as u32)
    } else {
        0
    }
}

/// Number of provisioning attempts to launch for `pool`, given the
/// registrations listed under its primary label.
pub fn attempts_needed(pool: &Pool, regs: &Vec<Registration>) -> (r: u32)
    ensures
        r == deficit_of(pool.min_ready as int, idle_of(regs@) as int),
{
    deficit(pool.min_ready, idle_count(regs))
}

/// The label that a pool's registrations are listed under: its first one.
pub fn primary_label(pool: &Pool) -> (r: Option<&String>)
    ensures
        r == (if pool.runner.labels@.len() > 0 { Some(&pool.runner.labels@[0]) } else { None::<&String> }),
{
    if pool.runner.labels.len() > 0 {
        Some(&pool.runner.labels[0])
    } else {
        None
    }
}

/// A pool needing `n` runners with `i` idle gets `n - i` attempts when `i < n`,
/// and none otherwise.
pub proof fn lemma_attempts_cover_shortfall(min_ready: int, idle: int)
    requires
        0 <= idle,
    ensures
        idle < min_ready ==> deficit_of(min_ready, idle) == min_ready - idle,
        idle >= min_ready ==> deficit_of(min_ready, idle) == 0,
        idle + deficit_of(min_ready, idle) >= min_ready,
{
}

/// Progress of the provisioning attempts of one pool in one cycle.
#[derive(Clone, Copy, Debug, PartialEq, Eq, Structural)]
pub struct Provisioning {
    /// Attempts to make in all.
    pub requested: u32,
    /// Attempts started so far.
    pub launched: u32,
    /// Attempts started and not yet finished.
    pub in_flight: usize,
    /// Attempts finished with a new instance.
    pub succeeded: u32,
    /// Attempts finished with an error.
    pub failed: u32,
}

impl Provisioning {
    /// The schedule's invariant: counts agree and the cap is never exceeded.
    pub open spec fn wf(self) -> bool {
        &&& self.launched <= self.requested
        &&& self.in_flight <= MAX_IN_FLIGHT
        &&& self.launched as int == self.succeeded as int + self.failed as int + self.in_flight as int
    }

    /// Whether one more attempt may start now.
    pub open spec fn may_launch(self) -> bool {
        self.launched < self.requested && self.in_flight < MAX_IN_FLIGHT
    }

    /// The schedule after one attempt starts.
    pub open spec fn after_launch(self) -> Provisioning {
        Provisioning { launched: (self.launched + 1) as u32, in_flight: (self.in_flight + 1) as usize, ..self }
    }

    /// The schedule after one attempt finishes, with success or not.
    pub open spec fn after_finish(self, ok: bool) -> Provisioning {
        Provisioning {
            in_flight: (self.in_flight - 1) as usize,
            succeeded: if ok { (self.succeeded + 1) as u32 } else { self.succeeded },
            failed: if ok { self.failed } else { (self.failed + 1) as u32 },
            ..self
        }
    }

    /// A schedule for `requested` attempts, none started.
    pub fn new(requested: u32) -> (r: Provisioning)
        ensures
            r.wf(),
            r == (Provisioning { requested, launched: 0, in_flight: 0, succeeded: 0, failed: 0 }),
    {
        Provisioning { requested, launched: 0, in_flight: 0, succeeded: 0, failed: 0 }
    }

    /// Whether one more attempt may start now: some are left and fewer than
    /// the cap are in flight.
    pub fn can_launch(&self) -> (r: bool)
        ensures
            r == self.may_launch(),
    {
        self.launched < self.requested && self.in_flight < MAX_IN_FLIGHT
    }

    /// Records the start of one attempt and returns its number, counting from one.
    pub fn launch(&mut self) -> (index: u32)
        requires
            old(self).wf(),
            old(self).may_launch(),
        ensures
            *final(self) == old(self).after_launch(),
            final(self).wf(),
            index == old(self).launched + 1,
    {
        self.launched = self.launched + 1;
        self.in_flight = self.in_flight + 1;
        self.launched
    }

    /// Records the end of one attempt in flight.
    pub fn finish(&mut self, ok: bool)
        requires
            old(self).wf(),
            old(self).in_flight > 0,
        ensures
            *final(self) == old(self).after_finish(ok),
            final(self).wf(),
    {
        self.in_flight = self.in_flight - 1;
        if ok {
            self.succeeded = self.succeeded + 1;
        } else {
            self.failed = self.failed + 1;
        }
    }

    /// Whether every requested attempt has started and finished.
    pub fn is_done(&self) -> (r: bool)
        ensures
            r == (self.launched == self.requested && self.in_flight == 0),
    {
        self.launched == self.requested && self.in_flight == 0
    }
}

/// Starting or finishing an attempt never takes the number in flight past the
/// cap, whatever the number requested.
pub proof fn lemma_cap_respected(p: Provisioning, ok: bool)
    requires
        p.wf(),
    ensures
        p.may_launch() ==> p.after_launch().wf() && p.after_launch().in_flight <= MAX_IN_FLIGHT,
        p.in_flight > 0 ==> p.after_finish(ok).wf() && p.after_finish(ok).in_flight <= MAX_IN_FLIGHT,
        p.in_flight == MAX_IN_FLIGHT ==> !p.may_launch(),
{
}

/// A finished schedule started exactly the attempts requested, and each of
/// them ended as a success or a failure.
pub proof fn lemma_done_accounts_all(p: Provisioning)
    requires
        p.wf(),
        p.launched == p.requested,
        p.in_flight == 0,
    ensures
        p.succeeded as int + p.failed as int == p.requested as int,
{
}

} // verus!
