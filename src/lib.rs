//! A Monte-Carlo simulation of the Monty Hall puzzle.
//!
//! The library holds the verified parts of the simulation: reading the
//! command line into a run configuration, the three-door game, the run
//! counters and what a status report shows.
pub mod args;
pub mod laws;
pub mod report;
pub mod state;
pub mod trial;

pub use args::{parse_iterations, parse_strategy, Strategy};
pub use report::progress_due;
pub use state::ProgState;
pub use trial::{goat_doors, host_opens, staying_wins, Trial};
