//! Stochastic production: validation of weights, exact candidate
//! selection, the fallback policy, and the empirical split of an even
//! two-way rule.

use lindenmayer::presets::ProductionRun;
use lindenmayer::stochastic::{produce_stochastic, select, RuleSetError, StochasticRules, PROB_SCALE};

fn chars(s: &str) -> Vec<char> {
    s.chars().collect()
}

fn half_half_rules() -> StochasticRules {
    let choices = vec![(PROB_SCALE / 2, chars("X")), (PROB_SCALE / 2, chars("Y"))];
    StochasticRules::new(vec![('d', choices)]).unwrap()
}

#[test]
fn overweight_rule_set_is_rejected_at_validation() {
    // Weights standing for probabilities 0.6 + 0.6 = 1.2: rejected before
    // any sampling can happen.
    let choices = vec![(600_000, chars("X")), (600_000, chars("Y"))];
    let result = StochasticRules::new(vec![('d', choices)]);
    assert_eq!(result.err(), Some(RuleSetError::ProbabilityOverflow('d')));
}

#[test]
fn weights_summing_to_one_are_accepted() {
    assert!(StochasticRules::new(vec![('d', vec![(500_000, chars("X")), (500_000, chars("Y"))])])
        .is_ok());
}

#[test]
fn weights_summing_below_one_are_accepted() {
    assert!(StochasticRules::new(vec![('d', vec![(100_000, chars("X"))])]).is_ok());
}

#[test]
fn only_the_offending_symbol_is_reported() {
    let entries = vec![
        ('a', vec![(400_000, chars("X"))]),
        ('b', vec![(900_000, chars("Y")), (200_000, chars("Z"))]),
    ];
    let result = StochasticRules::new(entries);
    assert_eq!(result.err(), Some(RuleSetError::ProbabilityOverflow('b')));
}

#[test]
fn select_picks_first_candidate_whose_cumulative_weight_exceeds_the_draw() {
    let choices = vec![(300_000, chars("X")), (700_000, chars("Y"))];
    assert_eq!(select(&choices, 0), Some(0));
    assert_eq!(select(&choices, 299_999), Some(0));
    assert_eq!(select(&choices, 300_000), Some(1));
    assert_eq!(select(&choices, 999_999), Some(1));
}

#[test]
fn select_runs_out_when_the_draw_beats_the_total() {
    let choices = vec![(300_000, chars("X"))];
    assert_eq!(select(&choices, 300_000), None);
    assert_eq!(select(&choices, 999_999), None);
}

#[test]
fn symbols_without_stochastic_rules_pass_through() {
    let rules = half_half_rules();
    for _ in 0..50 {
        let out = produce_stochastic(&chars("abc"), &rules);
        assert_eq!(out, chars("abc"));
    }
}

#[test]
fn zero_weight_candidates_always_fall_back_to_the_symbol() {
    let rules = StochasticRules::new(vec![('d', vec![(0, chars("X"))])]).unwrap();
    for _ in 0..50 {
        let out = produce_stochastic(&chars("d"), &rules);
        assert_eq!(out, chars("d"));
    }
}

#[test]
fn every_sample_is_an_allowed_replacement() {
    let rules = half_half_rules();
    for _ in 0..200 {
        let out = produce_stochastic(&chars("d"), &rules);
        assert!(out == chars("X") || out == chars("Y"));
    }
}

#[test]
fn even_weights_split_evenly_over_many_trials() {
    let rules = half_half_rules();
    let trials = 10_000;
    let mut xs = 0;
    for _ in 0..trials {
        let out = produce_stochastic(&chars("d"), &rules);
        if out == chars("X") {
            xs += 1;
        }
    }
    // With 10,000 fair draws the count of X lies within ten standard
    // deviations of half.
    assert!(xs > 4_500 && xs < 5_500, "split was {} of {}", xs, trials);
}

#[test]
fn branching_plant_grows_with_balanced_brackets() {
    // The stochastic plant: d replaced half the time by d[cad]a, half the
    // time by d[bad]a.
    let choices = vec![(PROB_SCALE / 2, chars("d[cad]a")), (PROB_SCALE / 2, chars("d[bad]a"))];
    let rules = StochasticRules::new(vec![('d', choices)]).unwrap();
    let mut path = chars("d");
    for _ in 0..7 {
        path = produce_stochastic(&path, &rules);
    }
    let opens = path.iter().filter(|&&c| c == '[').count();
    let closes = path.iter().filter(|&&c| c == ']').count();
    assert_eq!(opens, closes);
    assert!(path.len() >= 1 + 7 * 6);
}

#[test]
fn production_run_grows_and_starts_over_at_the_limit() {
    let choices = vec![(PROB_SCALE / 2, chars("d[cad]a")), (PROB_SCALE / 2, chars("d[bad]a"))];
    let rules = StochasticRules::new(vec![('d', choices)]).unwrap();
    let start = chars("d");
    let mut run = ProductionRun::new(&start);
    assert_eq!(run.path, start);
    assert_eq!(run.iteration, 0);
    let mut lengths = Vec::new();
    for _ in 0..3 {
        run.tick(&start, &rules, 2);
        lengths.push(run.path.len());
    }
    // Two growing ticks, then the limit is reached and the run restarts
    // from the start string.
    assert_eq!(run.iteration, 0);
    assert!(lengths[0] < lengths[1]);
    assert_eq!(*lengths.last().unwrap(), 7);
}
