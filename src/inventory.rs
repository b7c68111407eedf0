//! Narrowing the listings of both services down to the managed fleet.
use vstd::prelude::*;
use crate::model::{Registration, Server};
use crate::naming::{is_managed, is_managed_name};

verus! {

/// Whether a registration carries the label `label`.
pub open spec fn has_label(r: Registration, label: Seq<char>) -> bool {
    exists|k: int| 0 <= k < r.labels@.len() && #[trigger] r.labels@[k]@ == label
}

/// Whether a registration is kept by a listing with the optional label filter.
pub open spec fn registration_selected(r: Registration, label: Option<Seq<char>>) -> bool {
    is_managed(r.name@) && match label {
        Some(l) => has_label(r, l),
        None => true,
    }
}

/// The indices below `n`, in increasing order, of the registrations that a
/// listing with the label filter keeps.
pub open spec fn selected_registrations(regs: Seq<Registration>, label: Option<Seq<char>>, n: int) -> Seq<usize>
    decreases n,
{
    if n <= 0 {
        seq![]
    } else if registration_selected(regs[n - 1], label) {
        selected_registrations(regs, label, n - 1).push((n - 1) as usize)
    } else {
        selected_registrations(regs, label, n - 1)
    }
}

/// The indices below `n`, in increasing order, of the managed instances.
pub open spec fn selected_servers(servers: Seq<Server>, n: int) -> Seq<usize>
    decreases n,
{
    if n <= 0 {
        seq![]
    } else if is_managed(servers[n - 1].name@) {
        selected_servers(servers, n - 1).push((n - 1) as usize)
    } else {
        selected_servers(servers, n - 1)
    }
}

/// The label filter as a sequence of characters.
pub open spec fn label_view(label: Option<&String>) -> Option<Seq<char>> {
    match label {
        Some(l) => Some(l@),
        None => None,
    }
}

/// Number of registrations among the first `n` that are not busy.
pub open spec fn idle_upto(regs: Seq<Registration>, n: int) -> nat
    decreases n,
{
    if n <= 0 {
        0
    } else {
        idle_upto(regs, n - 1) + if regs[n - 1].busy { 0nat } else { 1nat }
    }
}

/// Number of registrations that are not busy.
pub open spec fn idle_of(regs: Seq<Registration>) -> nat {
    idle_upto(regs, regs.len() as int)
}

proof fn lemma_idle_upto_bound(regs: Seq<Registration>, n: int)
    requires
        0 <= n,
    ensures
        idle_upto(regs, n) <= n,
    decreases n,
{
    if n > 0 {
        lemma_idle_upto_bound(regs, n - 1);
    }
}

/// Whether a registration carries the label `label`.
pub fn registration_has_label(r: &Registration, label: &String) -> (b: bool)
    ensures
        b == has_label(*r, label@),
{
    let mut k: usize = 0;
    while k < r.labels.len()
        invariant
            k <= r.labels@.len(),
            forall|m: int| 0 <= m < k ==> r.labels@[m]@ != label@,
        decreases r.labels.len() - k,
    {
        if r.labels[k].eq(label) {
            return true;
        }
        k = k + 1;
    }
    false
}

/// Indices of the registrations that belong to the managed fleet and, where a
/// label is given, carry it; in listing order.
pub fn select_registrations(regs: &Vec<Registration>, label: Option<&String>) -> (r: Vec<usize>)
    ensures
        r@ == selected_registrations(regs@, label_view(label), regs@.len() as int),
{
    let mut r: Vec<usize> = Vec::new();
    let mut i: usize = 0;
    while i < regs.len()
        invariant
            i <= regs@.len(),
            r@ == selected_registrations(regs@, label_view(label), i as int),
        decreases regs.len() - i,
    {
        let keep = is_managed_name(regs[i].name.as_str()) && match label {
            Some(l) => registration_has_label(&regs[i], l),
            None => true,
        };
        if keep {
            r.push(i);
        }
        i = i + 1;
    }
    r
}

/// Indices of the instances that belong to the managed fleet, in listing order.
pub fn select_servers(servers: &Vec<Server>) -> (r: Vec<usize>)
    ensures
        r@ == selected_servers(servers@, servers@.len() as int),
{
    let mut r: Vec<usize> = Vec::new();
    let mut i: usize = 0;
    while i < servers.len()
        invariant
            i <= servers@.len(),
            r@ == selected_servers(servers@, i as int),
        decreases servers.len() - i,
    {
        if is_managed_name(servers[i].name.as_str()) {
            r.push(i);
        }
        i = i + 1;
    }
    r
}

/// Number of registrations that are not busy.
pub fn idle_count(regs: &Vec<Registration>) -> (r: usize)
    ensures
        r == idle_of(regs@),
{
    let mut n: usize = 0;
    let mut i: usize = 0;
    while i < regs.len()
        invariant
            i <= regs@.len(),
            n == idle_upto(regs@, i as int),
        decreases regs.len() - i,
    {
        proof {
            lemma_idle_upto_bound(regs@, i as int);
        }
        if !regs[i].busy {
            n = n + 1;
        }
        i = i + 1;
    }
    n
}

} // verus!
