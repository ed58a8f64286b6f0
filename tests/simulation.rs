use montyhall::{goat_doors, host_opens, parse_iterations, parse_strategy, progress_due, staying_wins};
use montyhall::{ProgState, Strategy};

fn args(tokens: &[&str]) -> Vec<String> {
    tokens.iter().map(|t| t.to_string()).collect()
}

fn run_all(state: &mut ProgState) {
    while state.needs_another_iteration() {
        state.play_trial();
    }
}

#[test]
fn config_ten_stay_runs_ten_trials() {
    let mut st = ProgState::new(&args(&["prog", "10", "STAY"])).unwrap();
    assert_eq!(st.iterations(), 10);
    assert_eq!(st.iterations_performed(), 0);
    assert_eq!(st.strategy(), Strategy::Stay);
    assert!(!st.logging());
    run_all(&mut st);
    assert_eq!(st.iterations_performed(), 10);
    let t = st.tallies();
    assert_eq!(t.len(), 1);
    assert_eq!(t[0], (Strategy::Stay, st.stay_wins()));
}

#[test]
fn config_zero_iterations_rejected() {
    let r = ProgState::new(&args(&["prog", "0", "STAY"]));
    assert_eq!(r.err(), Some("Zero is an invalid number of iterations"));
}

#[test]
fn config_unparsable_iterations_rejected() {
    let r = ProgState::new(&args(&["prog", "abc", "STAY"]));
    assert_eq!(r.err(), Some("Iterations argument failed to parse"));
}

#[test]
fn config_unknown_strategy_rejected() {
    let r = ProgState::new(&args(&["prog", "10", "SPIN"]));
    assert_eq!(r.err(), Some("Strategy failed to parse"));
}

#[test]
fn config_wrong_argument_count_rejected() {
    assert_eq!(ProgState::new(&args(&["prog", "10"])).err(), Some("Incomplete argument list"));
    assert_eq!(ProgState::new(&args(&["prog"])).err(), Some("Incomplete argument list"));
    let five = args(&["prog", "10", "STAY", "DEBUGLOG", "x"]);
    assert_eq!(ProgState::new(&five).err(), Some("Incomplete argument list"));
}

#[test]
fn config_strategy_is_case_sensitive() {
    let r = ProgState::new(&args(&["prog", "10", "stay"]));
    assert_eq!(r.err(), Some("Strategy failed to parse"));
}

#[test]
fn config_count_checked_before_strategy() {
    let r = ProgState::new(&args(&["prog", "0", "SPIN"]));
    assert_eq!(r.err(), Some("Zero is an invalid number of iterations"));
}

#[test]
fn config_other_third_token_ignored() {
    let st = ProgState::new(&args(&["prog", "5", "SWITCH", "VERBOSE"])).unwrap();
    assert!(!st.logging());
    assert_eq!(st.strategy(), Strategy::Switch);
    assert_eq!(st.iterations(), 5);
}

#[test]
fn config_both_with_debuglog_logs_every_trial() {
    let mut st = ProgState::new(&args(&["prog", "10", "BOTH", "DEBUGLOG"])).unwrap();
    assert!(st.logging());
    let mut logged = 0;
    while st.needs_another_iteration() {
        let t = st.play_trial();
        logged += 1;
        assert_eq!(t.number, logged);
        let d = t.opened_door.unwrap();
        assert!(d < 3 && d != t.car_door && d != t.contestant_door);
    }
    assert_eq!(logged, 10);
    let t = st.tallies();
    assert_eq!(t.len(), 2);
    assert_eq!(t[0].0, Strategy::Stay);
    assert_eq!(t[1].0, Strategy::Switch);
    assert_eq!(t[0].1 + t[1].1, 10);
}

#[test]
fn quiet_trials_open_no_door() {
    let mut st = ProgState::new(&args(&["prog", "3", "SWITCH"])).unwrap();
    let t = st.play_trial();
    assert_eq!(t.opened_door, None);
    assert_eq!(t.number, 1);
    assert!(t.car_door < 3 && t.contestant_door < 3);
}

#[test]
fn parse_iterations_accepts_plain_and_plus_signed() {
    assert_eq!(parse_iterations("10"), Some(10));
    assert_eq!(parse_iterations("+7"), Some(7));
    assert_eq!(parse_iterations("007"), Some(7));
    assert_eq!(parse_iterations("0"), Some(0));
}

#[test]
fn parse_iterations_rejects_malformed() {
    assert_eq!(parse_iterations(""), None);
    assert_eq!(parse_iterations("+"), None);
    assert_eq!(parse_iterations("-1"), None);
    assert_eq!(parse_iterations(" 5"), None);
    assert_eq!(parse_iterations("5 "), None);
    assert_eq!(parse_iterations("1e3"), None);
    assert_eq!(parse_iterations("++1"), None);
}

#[test]
fn parse_iterations_largest_value() {
    assert_eq!(parse_iterations("340282366920938463463374607431768211455"), Some(u128::MAX));
    assert_eq!(parse_iterations("340282366920938463463374607431768211456"), None);
    assert_eq!(parse_iterations("3402823669209384634633746074317682114550"), None);
}

#[test]
fn parse_strategy_tokens() {
    assert_eq!(parse_strategy("STAY"), Some(Strategy::Stay));
    assert_eq!(parse_strategy("SWITCH"), Some(Strategy::Switch));
    assert_eq!(parse_strategy("BOTH"), Some(Strategy::Both));
    assert_eq!(parse_strategy("SWITCHES"), None);
    assert_eq!(parse_strategy(""), None);
}

#[test]
fn strategy_labels() {
    assert_eq!(Strategy::Stay.label(), "STAY");
    assert_eq!(Strategy::Switch.label(), "SWITCH");
    assert_eq!(Strategy::Both.label(), "BOTH");
}

#[test]
fn goat_doors_are_the_other_two() {
    assert_eq!(goat_doors(0), (1, 2));
    assert_eq!(goat_doors(1), (0, 2));
    assert_eq!(goat_doors(2), (0, 1));
}

#[test]
fn staying_wins_exactly_on_the_car() {
    assert!(staying_wins(1, 1));
    assert!(!staying_wins(0, 2));
}

#[test]
fn host_opens_remaining_goat() {
    assert_eq!(host_opens(0, 1, 0), 2);
    assert_eq!(host_opens(0, 2, 1), 1);
    assert_eq!(host_opens(2, 0, 0), 1);
    assert_eq!(host_opens(1, 2, 1), 0);
}

#[test]
fn host_opens_chosen_goat_when_contestant_has_car() {
    assert_eq!(host_opens(0, 0, 0), 1);
    assert_eq!(host_opens(0, 0, 1), 2);
    assert_eq!(host_opens(1, 1, 0), 0);
    assert_eq!(host_opens(1, 1, 1), 2);
    assert_eq!(host_opens(2, 2, 0), 0);
    assert_eq!(host_opens(2, 2, 1), 1);
}

#[test]
fn result_completed_counts_one_winner() {
    let mut st = ProgState::new(&args(&["prog", "3", "BOTH"])).unwrap();
    st.result_completed(true);
    assert_eq!((st.iterations_performed(), st.stay_wins(), st.switch_wins()), (1, 1, 0));
    st.result_completed(false);
    assert_eq!((st.iterations_performed(), st.stay_wins(), st.switch_wins()), (2, 1, 1));
    assert!(st.needs_another_iteration());
    st.result_completed(false);
    assert_eq!((st.iterations_performed(), st.stay_wins(), st.switch_wins()), (3, 1, 2));
    assert!(!st.needs_another_iteration());
}

#[test]
fn tallies_follow_strategy() {
    let mut st = ProgState::new(&args(&["prog", "4", "SWITCH"])).unwrap();
    st.result_completed(true);
    st.result_completed(false);
    st.result_completed(false);
    assert_eq!(st.tallies(), vec![(Strategy::Switch, 2)]);
    let mut both = ProgState::new(&args(&["prog", "2", "BOTH"])).unwrap();
    both.result_completed(true);
    assert_eq!(both.tallies(), vec![(Strategy::Stay, 1), (Strategy::Switch, 0)]);
}

#[test]
fn runs_perform_exactly_the_target() {
    for _ in 0..3 {
        let mut st = ProgState::new(&args(&["prog", "1000", "BOTH"])).unwrap();
        run_all(&mut st);
        assert_eq!(st.iterations_performed(), 1000);
        assert!(!st.needs_another_iteration());
    }
    let mut one = ProgState::new(&args(&["prog", "1", "STAY"])).unwrap();
    run_all(&mut one);
    assert_eq!(one.iterations_performed(), 1);
}

#[test]
fn wins_bounded_and_sum_to_performed() {
    let mut st = ProgState::new(&args(&["prog", "500", "BOTH"])).unwrap();
    while st.needs_another_iteration() {
        st.play_trial();
        assert!(st.stay_wins() <= st.iterations_performed());
        assert_eq!(st.stay_wins() + st.switch_wins(), st.iterations_performed());
    }
}

#[test]
fn trial_doors_vary() {
    let mut st = ProgState::new(&args(&["prog", "300", "BOTH"])).unwrap();
    let mut seen_car = [false; 3];
    let mut seen_pick = [false; 3];
    while st.needs_another_iteration() {
        let t = st.play_trial();
        seen_car[t.car_door] = true;
        seen_pick[t.contestant_door] = true;
    }
    assert_eq!(seen_car, [true; 3]);
    assert_eq!(seen_pick, [true; 3]);
}

#[test]
fn large_sample_rates_near_one_third() {
    let mut st = ProgState::new(&args(&["prog", "100000", "BOTH"])).unwrap();
    run_all(&mut st);
    let n = st.iterations_performed() as f64;
    let stay = st.stay_wins() as f64 / n;
    let switch = st.switch_wins() as f64 / n;
    assert!((stay - 1.0 / 3.0).abs() < 0.01);
    assert!((switch - 2.0 / 3.0).abs() < 0.01);
}

#[test]
fn progress_due_after_interval_when_quiet() {
    assert!(!progress_due(false, 999));
    assert!(progress_due(false, 1000));
    assert!(progress_due(false, 5000));
    assert!(!progress_due(true, 5000));
}

#[test]
fn usage_names_strategies() {
    let u = ProgState::get_usage();
    assert!(u.starts_with("montyhall [iterations] [strategy]"));
    assert!(u.contains("STAY, SWITCH, or BOTH"));
    assert!(u.contains("DEBUGLOG"));
}
