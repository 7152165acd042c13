//! Epoch-by-epoch accounting of validator rewards and penalties in a
//! proof-of-stake incentive scheme, with whole-network aggregate reports.

pub mod process_epoch;
pub mod simulation;
pub mod summation;
pub mod types;
