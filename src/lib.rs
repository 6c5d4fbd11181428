//! A configuration-driven operating-system installer core: the configuration
//! model, the partition-entry parser, the ordered installation plan derived
//! from a configuration, and the fail-fast run of that plan.
use vstd::prelude::*;

pub mod config;
pub mod guarantees;
pub mod partition_spec;
pub mod plan;
pub mod run;

verus! {

} // verus!
