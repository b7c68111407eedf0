//! The reconciliation cycle: scale every pool in order, collect garbage once,
//! sleep, and start again, whatever failed.
use vstd::prelude::*;

verus! {

/// Seconds between the end of one cycle and the start of the next.
pub const CYCLE_DELAY_SECS: u64 = 30;

/// The step the control loop is at.
#[derive(Clone, Copy, Debug, PartialEq, Eq, Structural)]
pub enum CycleStep {
    /// Scale the pool at this position of the configuration.
    ScalePool(usize),
    /// Run the garbage collector over the whole fleet.
    Collect,
    /// Wait before the next cycle.
    Sleep,
}

/// The first step of a cycle over `pools` pools.
pub open spec fn first_step_spec(pools: nat) -> CycleStep {
    if pools > 0 {
        CycleStep::ScalePool(0)
    } else {
        CycleStep::Collect
    }
}

/// Whether `step` belongs to a cycle over `pools` pools.
pub open spec fn step_valid(step: CycleStep, pools: nat) -> bool {
    match step {
        CycleStep::ScalePool(i) => i < pools,
        _ => true,
    }
}

/// The step after `step`, which succeeded or not. A failing step ends the
/// cycle early; the loop then sleeps and runs the next cycle as usual.
pub open spec fn next_step_spec(step: CycleStep, pools: nat, ok: bool) -> CycleStep {
    match step {
        CycleStep::ScalePool(i) => if !ok {
            CycleStep::Sleep
        } else if i + 1 < pools {
            CycleStep::ScalePool((i + 1) as usize)
        } else {
            CycleStep::Collect
        },
        CycleStep::Collect => CycleStep::Sleep,
        CycleStep::Sleep => first_step_spec(pools),
    }
}

/// The first step of a cycle over `pools` pools.
pub fn first_step(pools: usize) -> (r: CycleStep)
    ensures
        r == first_step_spec(pools as nat),
{
    if pools > 0 {
        CycleStep::ScalePool(0)
    } else {
        CycleStep::Collect
    }
}

/// The step after `step`, given whether it succeeded.
pub fn next_step(step: CycleStep, pools: usize, ok: bool) -> (r: CycleStep)
    requires
        step_valid(step, pools as nat),
    ensures
        r == next_step_spec(step, pools as nat, ok),
        step_valid(r, pools as nat),
{
    match step {
        CycleStep::ScalePool(i) => {
            if !ok {
                CycleStep::Sleep
            } else if i + 1 < pools {
                CycleStep::ScalePool(i + 1)
            } else {
                CycleStep::Collect
            }
        },
        CycleStep::Collect => CycleStep::Sleep,
        CycleStep::Sleep => first_step(pools),
    }
}

/// A failure at any step, such as a failed session refresh, only ends the
/// current cycle: the loop sleeps and then starts a full new cycle.
pub proof fn lemma_failure_does_not_stop_loop(step: CycleStep, pools: nat)
    requires
        step_valid(step, pools),
        step != CycleStep::Sleep,
    ensures
        next_step_spec(step, pools, false) == CycleStep::Sleep,
        next_step_spec(CycleStep::Sleep, pools, false) == first_step_spec(pools),
        next_step_spec(CycleStep::Sleep, pools, true) == first_step_spec(pools),
        step_valid(first_step_spec(pools), pools),
{
}

/// In a cycle where every step succeeds, the pools are scaled in
/// configuration order, the collector runs once after the last, and the loop
/// sleeps.
pub proof fn lemma_successful_cycle_order(i: usize, pools: nat)
    requires
        i < pools,
    ensures
        i + 1 < pools ==> next_step_spec(CycleStep::ScalePool(i), pools, true) == CycleStep::ScalePool((i + 1) as usize),
        i + 1 == pools ==> next_step_spec(CycleStep::ScalePool(i), pools, true) == CycleStep::Collect,
        next_step_spec(CycleStep::Collect, pools, true) == CycleStep::Sleep,
{
}

} // verus!
