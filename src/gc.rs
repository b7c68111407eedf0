//! The two-sided garbage-collection policy: which instances and which
//! registrations have fallen out of step and are to be deleted.
use vstd::prelude::*;
use crate::clock::{parsed_nanos, parse_timestamp, is_within_grace, utc_now, within_grace, Timestamp, GRACE_NANOS};
use crate::model::{Registration, Server};

verus! {

/// A per-entity error met while collecting.
#[derive(Clone, Copy, Debug, PartialEq, Eq, Structural)]
pub enum CollectError {
    /// The instance's creation time is not valid RFC 3339 text.
    InvalidTimestamp,
}

/// Whether an instance status counts as live (active or still building).
pub open spec fn is_live_status(status: Option<String>) -> bool {
    match status {
        Some(s) => s@ == "ACTIVE"@ || s@ == "BUILD"@,
        None => false,
    }
}

/// Whether a registration justifies keeping its instance: busy, or online.
pub open spec fn registration_in_use(r: Registration) -> bool {
    r.busy || r.status@ == "online"@
}

/// The instance deletion policy for one instance, its matching registration
/// (if any) and the current instant in nanoseconds.
pub open spec fn instance_verdict(server: Server, runner: Option<Registration>, now: int) -> Result<bool, CollectError> {
    let aged = match server.created {
        Some(c) => match parsed_nanos(c@) {
            Some(t) => Ok(!within_grace(t, now)),
            None => Err(CollectError::InvalidTimestamp),
        },
        None => Ok(true),
    };
    match aged {
        Err(e) => Err(e),
        Ok(false) => Ok(false),
        Ok(true) => Ok(match runner {
            Some(r) => !registration_in_use(r),
            None => true,
        }),
    }
}

/// The value behind an optional reference.
pub open spec fn owned<T>(o: Option<&T>) -> Option<T> {
    match o {
        Some(x) => Some(*x),
        None => None,
    }
}

/// The registration deletion policy: delete unless the matching instance is live.
pub open spec fn runner_verdict(instance: Option<Server>) -> bool {
    match instance {
        Some(s) => !is_live_status(s.status),
        None => true,
    }
}

/// Index of the last registration among the first `n` whose name is `name`.
pub open spec fn last_named(regs: Seq<Registration>, name: Seq<char>, n: int) -> Option<int>
    decreases n,
{
    if n <= 0 {
        None
    } else if regs[n - 1].name@ == name {
        Some(n - 1)
    } else {
        last_named(regs, name, n - 1)
    }
}

/// Index of the last live instance among the first `n` whose name is `name`.
pub open spec fn last_live_named(servers: Seq<Server>, name: Seq<char>, n: int) -> Option<int>
    decreases n,
{
    if n <= 0 {
        None
    } else if servers[n - 1].name@ == name && is_live_status(servers[n - 1].status) {
        Some(n - 1)
    } else {
        last_live_named(servers, name, n - 1)
    }
}

proof fn lemma_last_named_bounds(regs: Seq<Registration>, name: Seq<char>, n: int)
    ensures
        last_named(regs, name, n) matches Some(i) ==> 0 <= i < n && regs[i].name@ == name,
    decreases n,
{
    if n > 0 {
        lemma_last_named_bounds(regs, name, n - 1);
    }
}

proof fn lemma_last_live_named_bounds(servers: Seq<Server>, name: Seq<char>, n: int)
    ensures
        last_live_named(servers, name, n) matches Some(i) ==> 0 <= i < n && servers[i].name@ == name
            && is_live_status(servers[i].status),
    decreases n,
{
    if n > 0 {
        lemma_last_live_named_bounds(servers, name, n - 1);
    }
}

/// The registration that an instance is matched with: the last one of its name.
pub open spec fn matching_registration(regs: Seq<Registration>, name: Seq<char>) -> Option<Registration> {
    match last_named(regs, name, regs.len() as int) {
        Some(i) => Some(regs[i]),
        None => None,
    }
}

/// The live instance that a registration is matched with: the last one of its name.
pub open spec fn matching_live_instance(servers: Seq<Server>, name: Seq<char>) -> Option<Server> {
    match last_live_named(servers, name, servers.len() as int) {
        Some(i) => Some(servers[i]),
        None => None,
    }
}

/// The decision for instance `i` of a collection pass.
pub open spec fn instance_decision(servers: Seq<Server>, regs: Seq<Registration>, i: int, now: int) -> Result<bool, CollectError> {
    instance_verdict(servers[i], matching_registration(regs, servers[i].name@), now)
}

/// The decision for registration `j` of a collection pass.
pub open spec fn registration_decision(servers: Seq<Server>, regs: Seq<Registration>, j: int) -> bool {
    runner_verdict(matching_live_instance(servers, regs[j].name@))
}

fn str_eq(a: &String, lit: &str) -> (r: bool)
    ensures
        r == (a@ == lit@),
{
    let b = String::from_str(lit);
    a.eq(&b)
}

/// Whether an instance status is active or building.
pub fn is_live(status: &Option<String>) -> (r: bool)
    ensures
        r == is_live_status(*status),
{
    match status {
        Some(s) => str_eq(s, "ACTIVE") || str_eq(s, "BUILD"),
        None => false,
    }
}

/// Decides, at instant `now`, whether `instance` is to be deleted, given the
/// registration of the same name if there is one.
pub fn should_delete_instance_at(instance: &Server, runner: Option<&Registration>, now: Timestamp) -> (r: Result<bool, CollectError>)
    ensures
        r == instance_verdict(*instance, owned(runner), now.total_nanos()),
{
    match &instance.created {
        Some(c) => match parse_timestamp(c.as_str()) {
            Some(t) => {
                if is_within_grace(t, now) {
                    return Ok(false);
                }
            },
            None => {
                return Err(CollectError::InvalidTimestamp);
            },
        },
        None => {},
    }
    match runner {
        Some(x) => Ok(!(x.busy || str_eq(&x.status, "online"))),
        None => Ok(true),
    }
}

/// Decides whether `instance` is to be deleted now, given the registration of
/// the same name if there is one.
pub fn should_delete_instance(instance: &Server, runner: Option<&Registration>) -> (r: Result<bool, CollectError>)
    ensures
        exists|now: int| r == #[trigger] instance_verdict(*instance, owned(runner), now),
{
    let now = utc_now();
    should_delete_instance_at(instance, runner, now)
}

/// Decides whether `runner` is to be deleted, given the live instance of the
/// same name if there is one.
pub fn should_delete_runner(runner: &Registration, instance: Option<&Server>) -> (r: Result<bool, CollectError>)
    ensures
        r == Ok::<bool, CollectError>(runner_verdict(owned(instance))),
{
    match instance {
        Some(s) => Ok(!is_live(&s.status)),
        None => Ok(true),
    }
}

/// Index of the last registration named `name`.
pub fn find_registration(regs: &Vec<Registration>, name: &String) -> (r: Option<usize>)
    ensures
        match r {
            Some(i) => last_named(regs@, name@, regs@.len() as int) == Some(i as int),
            None => last_named(regs@, name@, regs@.len() as int) is None,
        },
{
    let mut i: usize = regs.len();
    while i > 0
        invariant
            i <= regs@.len(),
            last_named(regs@, name@, regs@.len() as int) == last_named(regs@, name@, i as int),
        decreases i,
    {
        if regs[i - 1].name.eq(name) {
            return Some(i - 1);
        }
        i = i - 1;
    }
    None
}

/// Index of the last live instance named `name`.
pub fn find_live_server(servers: &Vec<Server>, name: &String) -> (r: Option<usize>)
    ensures
        match r {
            Some(i) => last_live_named(servers@, name@, servers@.len() as int) == Some(i as int),
            None => last_live_named(servers@, name@, servers@.len() as int) is None,
        },
{
    let mut i: usize = servers.len();
    while i > 0
        invariant
            i <= servers@.len(),
            last_live_named(servers@, name@, servers@.len() as int) == last_live_named(servers@, name@, i as int),
        decreases i,
    {
        if servers[i - 1].name.eq(name) && is_live(&servers[i - 1].status) {
            return Some(i - 1);
        }
        i = i - 1;
    }
    None
}

/// What one collection pass decided, one entry per listed instance and per
/// listed registration, in listing order.
pub struct CollectionPlan {
    /// For each instance: delete it, keep it, or its creation time was invalid.
    pub instances: Vec<Result<bool, CollectError>>,
    /// For each registration: whether to delete it.
    pub registrations: Vec<bool>,
}

/// Decides, at instant `now`, every instance and every registration of one
/// collection pass. A malformed creation time affects only its own instance.
pub fn plan_collection(servers: &Vec<Server>, regs: &Vec<Registration>, now: Timestamp) -> (plan: CollectionPlan)
    ensures
        plan.instances@.len() == servers@.len(),
        plan.registrations@.len() == regs@.len(),
        forall|i: int| 0 <= i < servers@.len() ==> #[trigger] plan.instances@[i]
            == instance_decision(servers@, regs@, i, now.total_nanos()),
        forall|j: int| 0 <= j < regs@.len() ==> #[trigger] plan.registrations@[j]
            == registration_decision(servers@, regs@, j),
{
    let mut instances: Vec<Result<bool, CollectError>> = Vec::new();
    let mut i: usize = 0;
    while i < servers.len()
        invariant
            i <= servers@.len(),
            instances@.len() == i,
            forall|k: int| 0 <= k < i ==> #[trigger] instances@[k]
                == instance_decision(servers@, regs@, k, now.total_nanos()),
        decreases servers.len() - i,
    {
        let s = &servers[i];
        proof {
            lemma_last_named_bounds(regs@, s.name@, regs@.len() as int);
        }
        let d = match find_registration(regs, &s.name) {
            Some(k) => should_delete_instance_at(s, Some(&regs[k]), now),
            None => should_delete_instance_at(s, None, now),
        };
        instances.push(d);
        i = i + 1;
    }
    let mut registrations: Vec<bool> = Vec::new();
    let mut j: usize = 0;
    while j < regs.len()
        invariant
            j <= regs@.len(),
            registrations@.len() == j,
            forall|k: int| 0 <= k < j ==> #[trigger] registrations@[k]
                == registration_decision(servers@, regs@, k),
        decreases regs.len() - j,
    {
        proof {
            lemma_last_live_named_bounds(servers@, regs@[j as int].name@, servers@.len() as int);
        }
        let d = match find_live_server(servers, &regs[j].name) {
            Some(k) => should_delete_runner(&regs[j], Some(&servers[k])),
            None => should_delete_runner(&regs[j], None),
        };
        registrations.push(match d { Ok(b) => b, Err(_) => true });
        j = j + 1;
    }
    CollectionPlan { instances, registrations }
}

/// Whether a plan holds the decision at instant `now` for every instance.
pub open spec fn decides_instances_at(plan: CollectionPlan, servers: Seq<Server>, regs: Seq<Registration>, now: int) -> bool {
    forall|i: int| 0 <= i < servers.len() ==> #[trigger] plan.instances@[i]
        == instance_decision(servers, regs, i, now)
}

/// Decides every instance and registration of one collection pass at the
/// current instant.
pub fn collection_plan(servers: &Vec<Server>, regs: &Vec<Registration>) -> (plan: CollectionPlan)
    ensures
        plan.instances@.len() == servers@.len(),
        plan.registrations@.len() == regs@.len(),
        exists|now: int| #[trigger] decides_instances_at(plan, servers@, regs@, now),
        forall|j: int| 0 <= j < regs@.len() ==> #[trigger] plan.registrations@[j]
            == registration_decision(servers@, regs@, j),
{
    let now = utc_now();
    let plan = plan_collection(servers, regs, now);
    assert(decides_instances_at(plan, servers@, regs@, now.total_nanos()));
    plan
}

/// Positions below `n`, in order, of the instances that a plan deletes.
pub open spec fn instances_deleted(d: Seq<Result<bool, CollectError>>, n: int) -> Seq<usize>
    decreases n,
{
    if n <= 0 {
        seq![]
    } else if d[n - 1] == Ok::<bool, CollectError>(true) {
        instances_deleted(d, n - 1).push((n - 1) as usize)
    } else {
        instances_deleted(d, n - 1)
    }
}

/// Positions below `n`, in order, of the registrations that a plan deletes.
pub open spec fn registrations_deleted(d: Seq<bool>, n: int) -> Seq<usize>
    decreases n,
{
    if n <= 0 {
        seq![]
    } else if d[n - 1] {
        registrations_deleted(d, n - 1).push((n - 1) as usize)
    } else {
        registrations_deleted(d, n - 1)
    }
}

impl CollectionPlan {
    /// Positions of the instances to delete, in listing order.
    pub fn instances_to_delete(&self) -> (r: Vec<usize>)
        ensures
            r@ == instances_deleted(self.instances@, self.instances@.len() as int),
    {
        let mut r: Vec<usize> = Vec::new();
        let mut i: usize = 0;
        while i < self.instances.len()
            invariant
                i <= self.instances@.len(),
                r@ == instances_deleted(self.instances@, i as int),
            decreases self.instances.len() - i,
        {
            match self.instances[i] {
                Ok(true) => r.push(i),
                _ => {},
            }
            i = i + 1;
        }
        r
    }

    /// Positions of the instances whose creation time could not be read.
    pub fn invalid_instances(&self) -> (r: Vec<usize>)
        ensures
            forall|k: int| 0 <= k < r@.len() ==> #[trigger] r@[k] < self.instances@.len()
                && self.instances@[r@[k] as int] is Err,
            forall|i: int| 0 <= i < self.instances@.len() && self.instances@[i] is Err
                ==> r@.contains(i as usize),
    {
        let mut r: Vec<usize> = Vec::new();
        let mut i: usize = 0;
        while i < self.instances.len()
            invariant
                i <= self.instances@.len(),
                forall|k: int| 0 <= k < r@.len() ==> #[trigger] r@[k] < i
                    && self.instances@[r@[k] as int] is Err,
                forall|m: int| 0 <= m < i && self.instances@[m] is Err ==> r@.contains(m as usize),
            decreases self.instances.len() - i,
        {
            if self.instances[i].is_err() {
                let ghost before = r@;
                r.push(i);
                assert(r@[before.len() as int] == i);
                assert forall|m: int| 0 <= m < i && self.instances@[m] is Err implies r@.contains(m as usize) by {
                    let k = choose|k: int| 0 <= k < before.len() && before[k] == m as usize;
                    assert(r@[k] == m as usize);
                }
            }
            i = i + 1;
        }
        r
    }

    /// Positions of the registrations to delete, in listing order.
    pub fn registrations_to_delete(&self) -> (r: Vec<usize>)
        ensures
            r@ == registrations_deleted(self.registrations@, self.registrations@.len() as int),
    {
        let mut r: Vec<usize> = Vec::new();
        let mut i: usize = 0;
        while i < self.registrations.len()
            invariant
                i <= self.registrations@.len(),
                r@ == registrations_deleted(self.registrations@, i as int),
            decreases self.registrations.len() - i,
        {
            if self.registrations[i] {
                r.push(i);
            }
            i = i + 1;
        }
        r
    }
}

/// An instance younger than the grace period is kept, whatever the state of
/// its registration.
pub proof fn lemma_young_instance_kept(server: Server, runner: Option<Registration>, now: int)
    requires
        server.created matches Some(c) && parsed_nanos(c@) matches Some(t) && now - t < GRACE_NANOS,
    ensures
        instance_verdict(server, runner, now) == Ok::<bool, CollectError>(false),
{
}

/// An instance past the grace period is deleted when no registration matches
/// it or the matching one is idle and not online, and kept when the matching
/// registration is busy or online.
pub proof fn lemma_aged_instance_policy(server: Server, runner: Option<Registration>, now: int)
    requires
        server.created matches Some(c) && parsed_nanos(c@) matches Some(t) && now - t >= GRACE_NANOS,
    ensures
        runner is None ==> instance_verdict(server, runner, now) == Ok::<bool, CollectError>(true),
        runner matches Some(r) && r.busy ==> instance_verdict(server, runner, now) == Ok::<bool, CollectError>(false),
        runner matches Some(r) && r.status@ == "online"@ ==> instance_verdict(server, runner, now)
            == Ok::<bool, CollectError>(false),
        runner matches Some(r) && !r.busy && r.status@ != "online"@ ==> instance_verdict(server, runner, now)
            == Ok::<bool, CollectError>(true),
{
}

/// A registration is kept exactly when a live (active or building) instance
/// of its name exists; with no instance, or only a deleted or failed one, it
/// is deleted.
pub proof fn lemma_registration_policy(servers: Seq<Server>, regs: Seq<Registration>, j: int)
    requires
        0 <= j < regs.len(),
    ensures
        !registration_decision(servers, regs, j) <==> exists|k: int|
            0 <= k < servers.len() && #[trigger] servers[k].name@ == regs[j].name@ && is_live_status(servers[k].status),
{
    lemma_last_live_named_exists(servers, regs[j].name@, servers.len() as int);
    lemma_last_live_named_bounds(servers, regs[j].name@, servers.len() as int);
}

proof fn lemma_last_live_named_exists(servers: Seq<Server>, name: Seq<char>, n: int)
    requires
        0 <= n <= servers.len(),
    ensures
        last_live_named(servers, name, n) is None <==> forall|k: int|
            0 <= k < n ==> !(#[trigger] servers[k].name@ == name && is_live_status(servers[k].status)),
    decreases n,
{
    if n > 0 {
        lemma_last_live_named_exists(servers, name, n - 1);
    }
}

/// The walk over the deletions that a collection pass decided.
#[derive(Clone, Copy, Debug, PartialEq, Eq, Structural)]
pub struct Deletions {
    /// Deletions to attempt in all.
    pub total: usize,
    /// Position of the next deletion to attempt.
    pub next: usize,
    /// Deletions attempted that failed.
    pub failures: usize,
}

impl Deletions {
    /// The walk's invariant.
    pub open spec fn wf(self) -> bool {
        self.failures <= self.next <= self.total
    }

    /// The walk after the current deletion ended with success or not.
    pub open spec fn after(self, ok: bool) -> Deletions {
        Deletions {
            next: (self.next + 1) as usize,
            failures: if ok { self.failures } else { (self.failures + 1) as usize },
            ..self
        }
    }

    /// A walk over `total` deletions, none attempted.
    pub fn new(total: usize) -> (r: Deletions)
        ensures
            r == (Deletions { total, next: 0, failures: 0 }),
            r.wf(),
    {
        Deletions { total, next: 0, failures: 0 }
    }

    /// The position of the deletion to attempt now, if any is left.
    pub fn current(&self) -> (r: Option<usize>)
        ensures
            r == (if self.next < self.total { Some(self.next) } else { None::<usize> }),
    {
        if self.next < self.total {
            Some(self.next)
        } else {
            None
        }
    }

    /// Records how the current deletion ended and moves on to the next one.
    pub fn record(&mut self, ok: bool)
        requires
            old(self).wf(),
            old(self).next < old(self).total,
        ensures
            *final(self) == old(self).after(ok),
            final(self).wf(),
    {
        self.next = self.next + 1;
        if !ok {
            self.failures = self.failures + 1;
        }
    }
}

/// The walk over `total` deletions after the outcomes `oks`, in turn.
pub open spec fn walk(total: usize, oks: Seq<bool>) -> Deletions
    decreases oks.len(),
{
    if oks.len() == 0 {
        Deletions { total, next: 0, failures: 0 }
    } else {
        walk(total, oks.drop_last()).after(oks.last())
    }
}

/// Number of failures among the outcomes.
pub open spec fn failures_in(oks: Seq<bool>) -> nat
    decreases oks.len(),
{
    if oks.len() == 0 {
        0
    } else {
        failures_in(oks.drop_last()) + if oks.last() { 0nat } else { 1nat }
    }
}

/// Failed deletions never stop a pass: whatever each attempt answers, the
/// walk moves to the next one, so every decided deletion is attempted and the
/// failures are counted.
pub proof fn lemma_failures_do_not_stop_pass(total: usize, oks: Seq<bool>)
    requires
        oks.len() <= total,
    ensures
        walk(total, oks).wf(),
        walk(total, oks).next == oks.len(),
        walk(total, oks).failures == failures_in(oks),
        walk(total, oks).total == total,
    decreases oks.len(),
{
    if oks.len() > 0 {
        lemma_failures_do_not_stop_pass(total, oks.drop_last());
        lemma_failures_bounded(oks.drop_last());
    }
}

proof fn lemma_failures_bounded(oks: Seq<bool>)
    ensures
        failures_in(oks) <= oks.len(),
    decreases oks.len(),
{
    if oks.len() > 0 {
        lemma_failures_bounded(oks.drop_last());
    }
}

} // verus!
