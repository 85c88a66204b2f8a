//! The command interpreter: the command vocabulary symbol by symbol,
//! diagnostics for underflow and unknown symbols, stack balance over whole
//! walks, and an end-to-end run of a produced preset.

use lindenmayer::command::{Command, Diagnostic};
use lindenmayer::interpreter::interpret;
use lindenmayer::orientation::{Axis, Orientation};
use lindenmayer::presets::{fractal_plant, produce_n};
use lindenmayer::turtle::Turtle;

fn chars(s: &str) -> Vec<char> {
    s.chars().collect()
}

fn run_default(path: &str) -> (Turtle, Vec<Command>, Vec<Diagnostic>) {
    let mut t = Turtle::default();
    let (cmds, diags) = interpret(&mut t, &chars(path));
    (t, cmds, diags)
}

#[test]
fn draw_forward_emits_a_segment() {
    let (t, cmds, diags) = run_default("F");
    assert_eq!(
        cmds,
        vec![Command::Draw { length: 1_000, thickness: 2_000, color: t.color }]
    );
    assert!(diags.is_empty());
}

#[test]
fn move_forward_without_drawing() {
    let (_, cmds, diags) = run_default("f");
    assert_eq!(cmds, vec![Command::Advance { length: 1_000 }]);
    assert!(diags.is_empty());
}

#[test]
fn left_and_right_turns_have_opposite_signs() {
    let (_, cmds, _) = run_default("+-");
    assert_eq!(
        cmds,
        vec![
            Command::Turn { axis: Axis::Up, angle: -25_000 },
            Command::Turn { axis: Axis::Up, angle: 25_000 },
        ]
    );
}

#[test]
fn reverse_direction_turns_half_a_turn() {
    let (_, cmds, _) = run_default("|");
    assert_eq!(cmds, vec![Command::Turn { axis: Axis::Up, angle: 180_000 }]);
}

#[test]
fn pitch_and_roll_use_their_axes() {
    let (_, cmds, _) = run_default("^/");
    assert_eq!(
        cmds,
        vec![
            Command::Turn { axis: Axis::Right, angle: 25_000 },
            Command::Turn { axis: Axis::Forward, angle: 25_000 },
        ]
    );
}

#[test]
fn swap_turn_sign_reverses_later_turns() {
    let (t, cmds, _) = run_default("&+&-");
    assert_eq!(
        cmds,
        vec![
            Command::Turn { axis: Axis::Up, angle: 25_000 },
            Command::Turn { axis: Axis::Up, angle: 25_000 },
        ]
    );
    assert!(!t.turn_reversed);
}

#[test]
fn toggling_twice_and_turning_twice_restores_the_heading() {
    let (t, _, diags) = run_default("&+&+");
    assert_eq!(t.orientation, Orientation::identity());
    assert!(diags.is_empty());
}

#[test]
fn save_and_restore_bracket_the_walk() {
    let (t, cmds, diags) = run_default("[F+]");
    assert_eq!(cmds.len(), 4);
    assert_eq!(cmds[0], Command::Push);
    assert_eq!(cmds[3], Command::Restore);
    assert!(diags.is_empty());
    assert_eq!(t.orientation, Orientation::identity());
    assert!(t.stack.is_empty());
}

#[test]
fn balanced_brackets_leave_orientation_and_stack_as_before() {
    let (t, _, diags) = run_default("[+[+[+]]]");
    assert_eq!(t.orientation, Orientation::identity());
    assert!(t.stack.is_empty());
    assert!(diags.is_empty());
}

#[test]
fn restore_on_empty_stack_is_reported_and_ignored() {
    let (t, cmds, diags) = run_default("]F");
    assert_eq!(diags, vec![Diagnostic::PopOnEmptyStack]);
    assert_eq!(cmds.len(), 1);
    assert!(matches!(cmds[0], Command::Draw { .. }));
    assert!(t.stack.is_empty());
}

#[test]
fn unknown_symbols_are_reported_and_ignored() {
    let (_, cmds, diags) = run_default("q?z");
    assert!(cmds.is_empty());
    assert_eq!(
        diags,
        vec![
            Diagnostic::UnknownCommand('q'),
            Diagnostic::UnknownCommand('?'),
            Diagnostic::UnknownCommand('z'),
        ]
    );
}

#[test]
fn placeholders_do_nothing() {
    let (t, cmds, diags) = run_default("XYA{}");
    assert!(cmds.is_empty());
    assert!(diags.is_empty());
    assert_eq!(t.orientation, Orientation::identity());
}

#[test]
fn pen_thickness_steps_up_and_down() {
    let (t, _, _) = run_default("##!");
    assert_eq!(t.thickness, 3_000);
}

#[test]
fn turn_angle_steps_narrow_and_widen() {
    let (t, _, _) = run_default("((");
    assert_eq!(t.turn_angle, 15_000);
    let (t, _, _) = run_default(")");
    assert_eq!(t.turn_angle, 30_000);
}

#[test]
fn adjusted_turn_angle_feeds_later_turns() {
    let (_, cmds, _) = run_default("(+");
    assert_eq!(cmds, vec![Command::Turn { axis: Axis::Up, angle: -20_000 }]);
}

#[test]
fn step_length_scales_by_halves_and_tenths() {
    let (t, _, _) = run_default(">");
    assert_eq!(t.line_length, 1_500);
    let (t, _, _) = run_default("><");
    assert_eq!(t.line_length, 1_000);
    let (t, _, _) = run_default("\u{b0}");
    assert_eq!(t.line_length, 900);
}

#[test]
fn dot_uses_the_pen_radius() {
    let (t, cmds, _) = run_default("#@");
    assert_eq!(cmds, vec![Command::Dot { radius: 3_000, color: t.color }]);
}

#[test]
fn produced_fractal_plant_interprets_without_diagnostics() {
    let plant = fractal_plant();
    let path = produce_n(&plant.start, &plant.production_rules, 3);
    let mut t = Turtle::default();
    t.turn_angle = plant.angle;
    let (cmds, diags) = interpret(&mut t, &path);
    assert!(diags.is_empty());
    let draws = cmds
        .iter()
        .filter(|c| matches!(c, Command::Draw { .. }))
        .count();
    let fs = path.iter().filter(|&&c| c == 'F').count();
    assert_eq!(draws, fs);
    assert!(t.stack.is_empty());
}
