//! The data the simulation works on: run parameters, validators, the state
//! with its aggregate queries, and the report rows.

pub mod config;
pub mod output;
pub mod state;
pub mod validator;

pub use config::{Config, PrintingOutput, Proportion, SimError};
pub use output::{EpochReportRow, MonthlySample, Output};
pub use state::{State, StateTotals};
pub use validator::{Deltas, Eligibility, Validator};
