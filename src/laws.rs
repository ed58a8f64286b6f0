//! Properties of whole runs, over the model that the run's methods are
//! specified with.
use vstd::prelude::*;
use crate::state::RunView;

verus! {

/// A run driven by a sequence of trial outcomes (`true`: staying won): while
/// the run needs another trial, the next outcome is counted with
/// `RunView::record`, which is what `ProgState::result_completed` and
/// `ProgState::play_trial` do to the state; once no more are needed, the run stops.
pub open spec fn run_with(s: RunView, outcomes: Seq<bool>) -> RunView
    decreases outcomes.len(),
{
    if s.needs_more() && outcomes.len() > 0 {
        run_with(s.record(outcomes[0]), outcomes.drop_first())
    } else {
        s
    }
}

/// A valid run that draws as many outcomes as it has trials left performs
/// exactly its target number of trials, and then needs no more.
pub proof fn lemma_run_performs_target(s: RunView, outcomes: Seq<bool>)
    requires
        s.inv(),
        outcomes.len() >= s.target - s.performed,
    ensures
        run_with(s, outcomes).performed == s.target,
        run_with(s, outcomes).target == s.target,
        !run_with(s, outcomes).needs_more(),
    decreases outcomes.len(),
{
    if s.needs_more() && outcomes.len() > 0 {
        lemma_run_performs_target(s.record(outcomes[0]), outcomes.drop_first());
    }
}

/// The trial count of a finished run does not depend on the outcomes: two
/// runs from the same state, whatever their draws, both perform the target.
pub proof fn lemma_trial_count_ignores_outcomes(s: RunView, a: Seq<bool>, b: Seq<bool>)
    requires
        s.inv(),
        a.len() >= s.target - s.performed,
        b.len() >= s.target - s.performed,
    ensures
        run_with(s, a).performed == run_with(s, b).performed,
        run_with(s, a).performed == s.target,
{
    lemma_run_performs_target(s, a);
    lemma_run_performs_target(s, b);
}

/// Counting trials keeps a run valid: in every state reached, staying has won
/// at most as many trials as were performed, and no more were performed than
/// planned.
pub proof fn lemma_run_stays_valid(s: RunView, outcomes: Seq<bool>)
    requires
        s.inv(),
    ensures
        run_with(s, outcomes).inv(),
        0 <= run_with(s, outcomes).stay_wins <= run_with(s, outcomes).performed,
    decreases outcomes.len(),
{
    if s.needs_more() && outcomes.len() > 0 {
        lemma_run_stays_valid(s.record(outcomes[0]), outcomes.drop_first());
    }
}

/// Each trial is a win for exactly one strategy: staying's count grows by one
/// when staying won and switching's otherwise, and the two counts always add
/// up to the trials performed.
pub proof fn lemma_one_winner_per_trial(s: RunView, stay_won: bool)
    requires
        s.inv(),
        s.needs_more(),
    ensures
        s.record(stay_won).stay_wins - s.stay_wins == (if stay_won { 1int } else { 0int }),
        s.record(stay_won).switch_wins() - s.switch_wins() == (if stay_won { 0int } else { 1int }),
        s.record(stay_won).stay_wins + s.record(stay_won).switch_wins() == s.record(stay_won).performed,
        s.record(stay_won).inv(),
{
}

/// How many of the outcomes are wins for staying (`true`).
pub open spec fn stay_count(outcomes: Seq<bool>) -> nat
    decreases outcomes.len(),
{
    if outcomes.len() == 0 {
        0
    } else {
        (if outcomes[0] { 1nat } else { 0nat }) + stay_count(outcomes.drop_first())
    }
}

/// How many of the outcomes are wins for switching (`false`).
pub open spec fn switch_count(outcomes: Seq<bool>) -> nat
    decreases outcomes.len(),
{
    if outcomes.len() == 0 {
        0
    } else {
        (if outcomes[0] { 0nat } else { 1nat }) + switch_count(outcomes.drop_first())
    }
}

/// Over a whole run from a fresh state, staying's wins are the outcomes that
/// staying won, and switching's wins are the rest.
pub proof fn lemma_wins_count_outcomes(s: RunView, outcomes: Seq<bool>)
    requires
        s.inv(),
        s.performed == 0,
        s.stay_wins == 0,
        outcomes.len() == s.target,
    ensures
        run_with(s, outcomes).stay_wins == stay_count(outcomes),
        run_with(s, outcomes).switch_wins() == switch_count(outcomes),
{
    lemma_counts_from(s, outcomes);
}

proof fn lemma_counts_from(s: RunView, outcomes: Seq<bool>)
    requires
        s.inv(),
        outcomes.len() == s.target - s.performed,
    ensures
        run_with(s, outcomes).stay_wins == s.stay_wins + stay_count(outcomes),
        run_with(s, outcomes).switch_wins() == s.switch_wins() + switch_count(outcomes),
    decreases outcomes.len(),
{
    if outcomes.len() > 0 {
        lemma_counts_from(s.record(outcomes[0]), outcomes.drop_first());
    }
}

} // verus!
