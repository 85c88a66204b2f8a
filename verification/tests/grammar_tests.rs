//! Deterministic production: the classic algae and fractal-tree grammars,
//! constants passing through unchanged, and iterated generations.

use lindenmayer::grammar::{produce, Rules};
use lindenmayer::presets::{fractal_plant, fractal_tree, hexagonal_gosper, hilbert, pentaplexity, produce_n, square, tree_3d};

fn chars(s: &str) -> Vec<char> {
    s.chars().collect()
}

fn algae_rules() -> Rules {
    let mut rules = Rules::new();
    rules.insert('A', chars("AB"));
    rules.insert('B', chars("A"));
    rules
}

#[test]
fn algae_one_generation() {
    let rules = algae_rules();
    let out = produce(&chars("AB"), &rules);
    assert_eq!(out, chars("ABA"));
}

#[test]
fn algae_two_generations() {
    let rules = algae_rules();
    let once = produce(&chars("AB"), &rules);
    let twice = produce(&once, &rules);
    assert_eq!(twice, chars("ABAAB"));
}

#[test]
fn algae_three_generations() {
    let rules = algae_rules();
    let mut s = chars("AB");
    for _ in 0..3 {
        s = produce(&s, &rules);
    }
    assert_eq!(s, chars("ABAABABA"));
}

#[test]
fn algae_lengths_grow_as_fibonacci() {
    let rules = algae_rules();
    let mut s = chars("AB");
    let mut lengths = vec![s.len()];
    for _ in 0..4 {
        s = produce(&s, &rules);
        lengths.push(s.len());
    }
    assert_eq!(lengths, vec![2, 3, 5, 8, 13]);
}

#[test]
fn fractal_tree_one_generation() {
    let mut rules = Rules::new();
    rules.insert('0', chars("1[0]0"));
    rules.insert('1', chars("11"));
    let out = produce(&chars("0"), &rules);
    assert_eq!(out, chars("1[0]0"));
}

#[test]
fn symbols_without_rules_pass_through() {
    let rules = algae_rules();
    let out = produce(&chars("C[D]E"), &rules);
    assert_eq!(out, chars("C[D]E"));
}

#[test]
fn empty_rule_table_keeps_everything() {
    let rules = Rules::new();
    let out = produce(&chars("XYZ+-"), &rules);
    assert_eq!(out, chars("XYZ+-"));
}

#[test]
fn empty_start_produces_empty() {
    let rules = algae_rules();
    let out = produce(&Vec::new(), &rules);
    assert!(out.is_empty());
}

#[test]
fn first_rule_for_a_symbol_wins() {
    let mut rules = Rules::new();
    rules.insert('A', chars("B"));
    rules.insert('A', chars("C"));
    let out = produce(&chars("A"), &rules);
    assert_eq!(out, chars("B"));
}

#[test]
fn produce_n_matches_repeated_produce() {
    let rules = algae_rules();
    assert_eq!(produce_n(&chars("AB"), &rules, 0), chars("AB"));
    assert_eq!(produce_n(&chars("AB"), &rules, 3), chars("ABAABABA"));
}

#[test]
fn fractal_plant_preset_first_generation() {
    let plant = fractal_plant();
    assert_eq!(plant.start, chars("X"));
    assert_eq!(plant.angle, 25_000);
    let out = produce(&plant.start, &plant.production_rules);
    assert_eq!(out, chars("F+[[X]-X]-F[-FX]+X"));
}

#[test]
fn fractal_tree_preset_matches_rules() {
    let tree = fractal_tree();
    assert_eq!(tree.start, chars("0"));
    assert_eq!(tree.angle, 25_000);
    let out = produce_n(&tree.start, &tree.production_rules, 2);
    assert_eq!(out, chars("11[1[0]0]1[0]0"));
}

#[test]
fn remaining_presets_have_their_angles_and_starts() {
    assert_eq!(square().angle, 90_000);
    assert_eq!(square().start, chars("F+XF+F+XF"));
    assert_eq!(hilbert().angle, 90_000);
    assert_eq!(hilbert().start, chars("X"));
    assert_eq!(pentaplexity().angle, 36_000);
    assert_eq!(pentaplexity().start, chars("F++F++F++F++F"));
    assert_eq!(hexagonal_gosper().angle, 60_000);
    assert_eq!(hexagonal_gosper().start, chars("XF"));
    assert_eq!(tree_3d().angle, 60_000);
    assert_eq!(tree_3d().start, chars("FFFA"));
}

#[test]
fn hilbert_preset_first_generation() {
    let h = hilbert();
    let out = produce(&h.start, &h.production_rules);
    assert_eq!(out, chars("-YF+XFX+FY-"));
}

#[test]
fn tree_3d_preset_first_generation() {
    let t = tree_3d();
    let out = produce(&t.start, &t.production_rules);
    assert_eq!(out, chars("FFF[^FFFA]////[^FFFA]////[^FFFA]"));
}
