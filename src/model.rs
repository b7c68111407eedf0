//! Plain values observed from the registration service and the compute
//! provider, and the static description of a pool.
use vstd::prelude::*;

verus! {

/// A runner registration as reported by the CI registration service.
#[derive(Clone, Debug)]
pub struct Registration {
    pub id: u64,
    pub name: String,
    pub busy: bool,
    pub status: String,
    pub labels: Vec<String>,
}

/// A compute instance as reported by the compute provider.
#[derive(Clone, Debug)]
pub struct Server {
    pub id: String,
    pub name: String,
    pub status: Option<String>,
    pub created: Option<String>,
}

/// The runner half of a pool: the registration group and the label set.
#[derive(Clone, Debug)]
pub struct PoolRunner {
    pub group_id: u64,
    pub labels: Vec<String>,
}

/// The instance half of a pool: what each created instance is built from.
#[derive(Clone, Debug)]
pub struct Instance {
    pub key_name: String,
    pub flavor: String,
    pub image: String,
    pub network: String,
    pub runner_user: String,
    pub runner_group: String,
}

/// One independently scaled pool of runners.
#[derive(Clone, Debug)]
pub struct Pool {
    pub min_ready: u32,
    pub runner: PoolRunner,
    pub instance: Instance,
}

} // verus!
