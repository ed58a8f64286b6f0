//! The run configuration and counters of one simulation.
use vstd::prelude::*;
use crate::args::{decimal_u128, parse_iterations, parse_strategy, str_eq, strategy_named, Strategy};

verus! {

/// The mathematical model of a run: its configuration and its counters.
pub struct RunView {
    pub target: nat,
    pub performed: nat,
    pub stay_wins: nat,
    pub logging: bool,
    pub strategy: Strategy,
}

impl RunView {
    /// At least one trial is planned, never more are performed than planned,
    /// and staying never wins more trials than were performed.
    pub open spec fn inv(self) -> bool {
        &&& self.target >= 1
        &&& self.performed <= self.target
        &&& self.stay_wins <= self.performed
        &&& self.target <= u128::MAX
    }

    /// Trials in which switching won: every trial that staying did not win.
    pub open spec fn switch_wins(self) -> int {
        self.performed - self.stay_wins
    }

    pub open spec fn needs_more(self) -> bool {
        self.performed < self.target
    }

    /// The run after one more trial, in which staying won exactly when `stay_won`.
    pub open spec fn record(self, stay_won: bool) -> RunView {
        RunView {
            performed: self.performed + 1,
            stay_wins: if stay_won { self.stay_wins + 1 } else { self.stay_wins },
            ..self
        }
    }
}

/// The state that a command line leads to: the error message that it is
/// refused with, or a fresh run.
pub open spec fn configured(args: Seq<String>) -> Result<RunView, Seq<char>> {
    if args.len() != 3 && args.len() != 4 {
        Err("Incomplete argument list"@)
    } else if decimal_u128(args[1]@) is None {
        Err("Iterations argument failed to parse"@)
    } else if decimal_u128(args[1]@) == Some(0u128) {
        Err("Zero is an invalid number of iterations"@)
    } else if strategy_named(args[2]@) is None {
        Err("Strategy failed to parse"@)
    } else {
        Ok(
            RunView {
                target: decimal_u128(args[1]@).unwrap() as nat,
                performed: 0,
                stay_wins: 0,
                logging: args.len() == 4 && args[3]@ == "DEBUGLOG"@,
                strategy: strategy_named(args[2]@).unwrap(),
            },
        )
    }
}

/// The planned and performed trial counts of a run, the number of trials
/// that staying won, and how the run reports.
pub struct ProgState {
    iterations: u128,
    iterations_performed: u128,
    stay_wins: u128,
    logging: bool,
    strategy: Strategy,
}

impl View for ProgState {
    type V = RunView;

    closed spec fn view(&self) -> RunView {
        RunView {
            target: self.iterations as nat,
            performed: self.iterations_performed as nat,
            stay_wins: self.stay_wins as nat,
            logging: self.logging,
            strategy: self.strategy,
        }
    }
}

impl ProgState {
    /// Builds a run from the command line: the program name, the iteration
    /// count, the strategy and, optionally, `DEBUGLOG` to log every trial.
    /// Any other third token is ignored.
    pub fn new(args: &[String]) -> (r: Result<ProgState, &'static str>)
        ensures
            match r {
                Ok(st) => configured(args@) == Ok::<RunView, Seq<char>>(st@) && st@.inv(),
                Err(e) => configured(args@) == Err::<RunView, Seq<char>>(e@),
            },
    {
        if args.len() != 3 && args.len() != 4 {
            return Err("Incomplete argument list");
        }
        let iterations = match parse_iterations(args[1].as_str()) {
            Some(count) => count,
            None => return Err("Iterations argument failed to parse"),
        };
        if iterations == 0 {
            return Err("Zero is an invalid number of iterations");
        }
        let strategy = match parse_strategy(args[2].as_str()) {
            Some(s) => s,
            None => return Err("Strategy failed to parse"),
        };
        let logging = args.len() == 4 && str_eq(args[3].as_str(), "DEBUGLOG");
        Ok(ProgState { iterations, iterations_performed: 0, stay_wins: 0, logging, strategy })
    }

    /// How the program is invoked.
    pub fn get_usage() -> (r: &'static str)
        ensures
            r@ == "montyhall [iterations] [strategy]\n\t \
            Iterations:\tNumber of tests to run (1 or more)\n\t \
            Strategy:\tChoose between STAY, SWITCH, or BOTH\n\t \
            Logging:\tOptional.  Enter DEBUGLOG to enable"@,
    {
        "montyhall [iterations] [strategy]\n\t \
            Iterations:\tNumber of tests to run (1 or more)\n\t \
            Strategy:\tChoose between STAY, SWITCH, or BOTH\n\t \
            Logging:\tOptional.  Enter DEBUGLOG to enable"
    }

    /// Counts one finished trial; `staywin` tells whether staying won it.
    pub fn result_completed(&mut self, staywin: bool)
        requires
            old(self)@.inv(),
            old(self)@.needs_more(),
        ensures
            final(self)@ == old(self)@.record(staywin),
            final(self)@.inv(),
    {
        self.iterations_performed = self.iterations_performed + 1;
        if staywin {
            self.stay_wins = self.stay_wins + 1;
        }
    }

    /// Whether fewer trials were performed than planned.
    pub fn needs_another_iteration(&self) -> (r: bool)
        ensures
            r == self@.needs_more(),
    {
        self.iterations_performed < self.iterations
    }

    pub fn iterations(&self) -> (r: u128)
        ensures
            r == self@.target,
    {
        self.iterations
    }

    pub fn iterations_performed(&self) -> (r: u128)
        ensures
            r == self@.performed,
    {
        self.iterations_performed
    }

    pub fn stay_wins(&self) -> (r: u128)
        ensures
            r == self@.stay_wins,
    {
        self.stay_wins
    }

    /// Trials that switching won: those that staying did not.
    pub fn switch_wins(&self) -> (r: u128)
        requires
            self@.inv(),
        ensures
            r == self@.switch_wins(),
    {
        self.iterations_performed - self.stay_wins
    }

    pub fn logging(&self) -> (r: bool)
        ensures
            r == self@.logging,
    {
        self.logging
    }

    pub fn strategy(&self) -> (r: Strategy)
        ensures
            r == self@.strategy,
    {
        self.strategy
    }
}

} // verus!
