//! The turtle state machine: defaults, turning and its reversal, exact
//! rotation round trips, the snapshot stack, and pen adjustments.

use lindenmayer::command::{Color, Command};
use lindenmayer::orientation::{Axis, Orientation};
use lindenmayer::turtle::Turtle;

#[test]
fn default_turtle_matches_the_documented_start_state() {
    let t = Turtle::default();
    assert_eq!(t.thickness, 2_000);
    assert_eq!(t.turn_angle, 25_000);
    assert_eq!(t.line_length, 1_000);
    assert_eq!(t.color, Color { red: 34, green: 139, blue: 34 });
    assert!(!t.turn_reversed);
    assert!(t.stack.is_empty());
    assert_eq!(t.orientation, Orientation::identity());
}

#[test]
fn turn_reversal_is_self_inverse() {
    let mut t = Turtle::default();
    let before = t.orientation.duplicate();
    t.reverse_turn();
    t.yaw(25_000);
    t.reverse_turn();
    t.yaw(25_000);
    assert_eq!(t.orientation, before);
    assert!(!t.turn_reversed);
}

#[test]
fn reversal_flips_the_emitted_turn_sign() {
    let mut t = Turtle::default();
    let cmd = t.yaw(25_000);
    assert_eq!(cmd, Command::Turn { axis: Axis::Up, angle: 25_000 });
    t.reverse_turn();
    let cmd = t.yaw(25_000);
    assert_eq!(cmd, Command::Turn { axis: Axis::Up, angle: -25_000 });
}

#[test]
fn rotation_round_trip_restores_the_frame() {
    let mut t = Turtle::default();
    let before = t.orientation.duplicate();
    t.pitch(30_000);
    t.pitch(-30_000);
    assert_eq!(t.orientation, before);
    t.roll(123_456);
    t.roll(-123_456);
    assert_eq!(t.orientation, before);
    t.yaw(359_999);
    t.yaw(-359_999);
    assert_eq!(t.orientation, before);
}

#[test]
fn round_trip_holds_after_other_rotations_too() {
    let mut t = Turtle::default();
    t.yaw(40_000);
    t.pitch(10_000);
    let before = t.orientation.duplicate();
    t.roll(77_000);
    t.roll(-77_000);
    assert_eq!(t.orientation, before);
}

#[test]
fn full_turns_change_nothing() {
    let mut t = Turtle::default();
    let before = t.orientation.duplicate();
    t.yaw(360_000);
    assert_eq!(t.orientation, before);
}

#[test]
fn same_axis_turns_merge() {
    let mut a = Turtle::default();
    a.yaw(20_000);
    a.yaw(30_000);
    let mut b = Turtle::default();
    b.yaw(50_000);
    assert_eq!(a.orientation, b.orientation);
}

#[test]
fn pop_restores_the_state_before_the_push() {
    let mut t = Turtle::default();
    t.yaw(25_000);
    let saved = t.orientation.duplicate();
    t.push();
    t.yaw(90_000);
    t.pitch(45_000);
    assert_ne!(t.orientation, saved);
    assert!(t.pop());
    assert_eq!(t.orientation, saved);
    assert!(t.stack.is_empty());
}

#[test]
fn nested_pushes_restore_in_lifo_order() {
    let mut t = Turtle::default();
    let outer = t.orientation.duplicate();
    t.push();
    t.yaw(10_000);
    let inner = t.orientation.duplicate();
    t.push();
    t.yaw(10_000);
    assert!(t.pop());
    assert_eq!(t.orientation, inner);
    assert!(t.pop());
    assert_eq!(t.orientation, outer);
}

#[test]
fn pop_on_empty_stack_reports_and_changes_nothing() {
    let mut t = Turtle::default();
    t.yaw(25_000);
    let before = t.orientation.duplicate();
    assert!(!t.pop());
    assert_eq!(t.orientation, before);
    assert!(t.stack.is_empty());
}

#[test]
fn thickness_adjustments_saturate() {
    let mut t = Turtle::default();
    t.increment_thickness(1_000);
    assert_eq!(t.thickness, 3_000);
    t.decrement_thickness(10_000);
    assert_eq!(t.thickness, 0);
    t.increment_thickness(i64::MAX);
    assert_eq!(t.thickness, 1_000_000_000_000);
}

#[test]
fn movement_commands_carry_the_pen_state() {
    let t = Turtle::default();
    assert_eq!(
        t.forward(500),
        Command::Draw { length: 500, thickness: 2_000, color: Color { red: 34, green: 139, blue: 34 } }
    );
    assert_eq!(t.forward_no_draw(700), Command::Advance { length: 700 });
    assert_eq!(
        t.dot(2_000),
        Command::Dot { radius: 2_000, color: Color { red: 34, green: 139, blue: 34 } }
    );
}
