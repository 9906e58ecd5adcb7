//! Placement of work items on a pool of capacity-bounded accelerators.
//!
//! A [`router::Router`] owns the pool and one placement strategy. For each
//! request the strategy picks an index without touching the pool, and the
//! router then reserves the request's cost on the chosen accelerator.

pub mod accelerator;
pub mod request;
pub mod router;
pub mod strategies;
