//! What a status report shows, and when a run shows one.
use vstd::prelude::*;
use crate::args::Strategy;
use crate::state::{ProgState, RunView};

verus! {

/// How long a quiet run waits between progress reports, in milliseconds.
pub const PROGRESS_INTERVAL_MS: u128 = 1000;

/// The win counts that a report lists, one per reported strategy (`Stay` or
/// `Switch`), staying first.
pub open spec fn tallies_of(v: RunView) -> Seq<(Strategy, int)> {
    match v.strategy {
        Strategy::Stay => seq![(Strategy::Stay, v.stay_wins as int)],
        Strategy::Switch => seq![(Strategy::Switch, v.switch_wins())],
        Strategy::Both => seq![
            (Strategy::Stay, v.stay_wins as int),
            (Strategy::Switch, v.switch_wins()),
        ],
    }
}

impl Strategy {
    /// The token that names the strategy on the command line.
    pub fn label(&self) -> (r: &'static str)
        ensures
            r@ == match *self {
                Strategy::Stay => "STAY"@,
                Strategy::Switch => "SWITCH"@,
                Strategy::Both => "BOTH"@,
            },
    {
        match *self {
            Strategy::Stay => "STAY",
            Strategy::Switch => "SWITCH",
            Strategy::Both => "BOTH",
        }
    }
}

impl ProgState {
    /// The win counts to report under the run's strategy: staying's, or
    /// switching's, or both, staying first.
    pub fn tallies(&self) -> (r: Vec<(Strategy, u128)>)
        requires
            self@.inv(),
        ensures
            r@.len() == tallies_of(self@).len(),
            forall|i: int|
                0 <= i < r@.len() ==> (#[trigger] r@[i]).0 == tallies_of(self@)[i].0 && r@[i].1
                    == tallies_of(self@)[i].1,
    {
        let stay = self.stay_wins();
        let switch = self.switch_wins();
        match self.strategy() {
            Strategy::Stay => vec![(Strategy::Stay, stay)],
            Strategy::Switch => vec![(Strategy::Switch, switch)],
            Strategy::Both => vec![(Strategy::Stay, stay), (Strategy::Switch, switch)],
        }
    }
}

/// Whether a progress report is due: never while every trial is logged, and
/// otherwise once the interval has passed since the last report.
pub fn progress_due(logging: bool, elapsed_ms: u128) -> (r: bool)
    ensures
        r == (!logging && elapsed_ms >= PROGRESS_INTERVAL_MS),
{
    !logging && elapsed_ms >= PROGRESS_INTERVAL_MS
}

} // verus!
