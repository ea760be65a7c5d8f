//! Verified core of an adaptive N-body integrator.

pub mod control;
pub mod exact;
pub mod pairs;
pub mod state;
pub mod tableau;
