//! Reconciliation engine that keeps a fleet of single-use compute instances in
//! step with a pool of self-hosted CI runner registrations.
pub mod model;
pub mod clock;
pub mod naming;
pub mod gc;
pub mod inventory;
pub mod scaler;
pub mod provision;
pub mod session;
pub mod reconcile;
pub mod cloud_config;
