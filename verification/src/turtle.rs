//! The turtle: a cursor with an exact orientation word, pen thickness,
//! step length, turn angle, a turn-reversal flag, and a LIFO stack of
//! saved orientation snapshots.  Every mutation is stated exactly against
//! the turtle's abstract model; the real-valued position lives with the
//! rendering collaborator, which mirrors the save/restore commands.

use vstd::prelude::*;

use crate::command::{Color, Command};
use crate::orientation::{word_apply, wf_word, Axis, Orientation, Rotation, FULL_TURN};

verus! {

/// Step lengths saturate at this many milli-units.
pub const LENGTH_LIMIT: i64 = 1_000_000_000_000;

/// Pen thicknesses saturate at this many milli-units.
pub const THICKNESS_LIMIT: i64 = 1_000_000_000_000;

/// `v` forced into `[lo, hi]`.
pub open spec fn clamped(v: int, lo: int, hi: int) -> int {
    if v < lo {
        lo
    } else if v > hi {
        hi
    } else {
        v
    }
}

/// The sign that the turn-reversal flag gives a turning angle.
pub open spec fn signed_angle(reversed: bool, a: int) -> int {
    if reversed {
        -a
    } else {
        a
    }
}

/// The turtle's abstract value: its orientation word, pen and step
/// parameters, turn-reversal flag, and stack of saved orientation words.
#[verifier::ext_equal]
pub struct TurtleModel {
    pub orientation: Seq<Rotation>,
    pub thickness: int,
    pub color: Color,
    pub stack: Seq<Seq<Rotation>>,
    pub turn_reversed: bool,
    pub turn_angle: int,
    pub line_length: int,
}

impl TurtleModel {
    /// Every orientation word is reduced and every numeric parameter is
    /// within its saturation bounds.
    pub open spec fn wf(&self) -> bool {
        wf_word(self.orientation) && (forall|i: int|
            0 <= i < self.stack.len() ==> wf_word(#[trigger] self.stack[i])) && 0 <= self.thickness
            <= THICKNESS_LIMIT as int && 0 <= self.line_length <= LENGTH_LIMIT as int && -(
        FULL_TURN as int) <= self.turn_angle <= FULL_TURN as int
    }
}

/// The model after toggling the turn-reversal flag.
pub open spec fn spec_reverse(t: TurtleModel) -> TurtleModel {
    TurtleModel { turn_reversed: !t.turn_reversed, ..t }
}

/// The model after a turning command of angle `a` about `axis`: the
/// reversal flag gives the angle its sign, then the rotation composes
/// into the orientation word.
pub open spec fn spec_turn(t: TurtleModel, axis: Axis, a: int) -> TurtleModel {
    TurtleModel {
        orientation: word_apply(t.orientation, axis, signed_angle(t.turn_reversed, a)),
        ..t
    }
}

/// The turtle state.
pub struct Turtle {
    pub orientation: Orientation,
    pub thickness: i64,
    pub color: Color,
    pub stack: Vec<Orientation>,
    pub turn_reversed: bool,
    pub turn_angle: i64,
    pub line_length: i64,
}

impl View for Turtle {
    type V = TurtleModel;

    open spec fn view(&self) -> TurtleModel {
        TurtleModel {
            orientation: self.orientation@,
            thickness: self.thickness as int,
            color: self.color,
            stack: self.stack@.map_values(|o: Orientation| o@),
            turn_reversed: self.turn_reversed,
            turn_angle: self.turn_angle as int,
            line_length: self.line_length as int,
        }
    }
}

impl Default for Turtle {
    /// The turtle as each interpretation run starts: identity orientation,
    /// forest-green pen of thickness 2 units, empty stack, a turn angle of
    /// 25 degrees, steps of 1 unit, turning not reversed.
    fn default() -> (t: Turtle)
        ensures
            t@ == (TurtleModel {
                orientation: Seq::<Rotation>::empty(),
                thickness: 2_000 as int,
                color: Color { red: 34, green: 139, blue: 34 },
                stack: Seq::<Seq<Rotation>>::empty(),
                turn_reversed: false,
                turn_angle: 25_000 as int,
                line_length: 1_000 as int,
            }),
            t@.wf(),
    {
        let t = Turtle {
            orientation: Orientation::identity(),
            thickness: 2_000,
            color: Color { red: 34, green: 139, blue: 34 },
            stack: Vec::new(),
            turn_reversed: false,
            turn_angle: 25_000,
            line_length: 1_000,
        };
        proof {
            assert(t@.stack =~= Seq::<Seq<Rotation>>::empty());
            assert(t@ =~= (TurtleModel {
                orientation: Seq::<Rotation>::empty(),
                thickness: 2_000 as int,
                color: Color { red: 34, green: 139, blue: 34 },
                stack: Seq::<Seq<Rotation>>::empty(),
                turn_reversed: false,
                turn_angle: 25_000 as int,
                line_length: 1_000 as int,
            }));
        }
        t
    }
}

impl Turtle {
    /// The turtle's model is well formed.
    pub open spec fn wf(&self) -> bool {
        self@.wf()
    }

    /// The command for moving forward by `dist` while drawing a segment of
    /// the current thickness and colour.  The turtle itself does not
    /// change: the renderer owns the real-valued position.
    pub fn forward(&self, dist: i64) -> (cmd: Command)
        ensures
            cmd == (Command::Draw { length: dist, thickness: self.thickness, color: self.color }),
    {
        Command::Draw { length: dist, thickness: self.thickness, color: self.color }
    }

    /// The command for moving forward by `dist` without drawing.
    pub fn forward_no_draw(&self, dist: i64) -> (cmd: Command)
        ensures
            cmd == (Command::Advance { length: dist }),
    {
        Command::Advance { length: dist }
    }

    /// The command for a filled dot of radius `radius` at the current
    /// position.
    pub fn dot(&self, radius: i64) -> (cmd: Command)
        ensures
            cmd == (Command::Dot { radius, color: self.color }),
    {
        Command::Dot { radius, color: self.color }
    }

    /// Turns about the up axis (yaw) by `angle`, the sign given by the
    /// reversal flag, and hands back the command for the renderer's frame.
    pub fn yaw(&mut self, angle: i64) -> (cmd: Command)
        requires
            old(self).wf(),
            -(FULL_TURN as int) <= angle <= FULL_TURN as int,
        ensures
            final(self)@ == spec_turn(old(self)@, Axis::Up, angle as int),
            final(self).wf(),
            cmd == (Command::Turn {
                axis: Axis::Up,
                angle: signed_angle(old(self)@.turn_reversed, angle as int) as i64,
            }),
    {
        self.turn(Axis::Up, angle)
    }

    /// Turns about the right axis (pitch), as `yaw` does.
    pub fn pitch(&mut self, angle: i64) -> (cmd: Command)
        requires
            old(self).wf(),
            -(FULL_TURN as int) <= angle <= FULL_TURN as int,
        ensures
            final(self)@ == spec_turn(old(self)@, Axis::Right, angle as int),
            final(self).wf(),
            cmd == (Command::Turn {
                axis: Axis::Right,
                angle: signed_angle(old(self)@.turn_reversed, angle as int) as i64,
            }),
    {
        self.turn(Axis::Right, angle)
    }

    /// Turns about the forward axis (roll), as `yaw` does.
    pub fn roll(&mut self, angle: i64) -> (cmd: Command)
        requires
            old(self).wf(),
            -(FULL_TURN as int) <= angle <= FULL_TURN as int,
        ensures
            final(self)@ == spec_turn(old(self)@, Axis::Forward, angle as int),
            final(self).wf(),
            cmd == (Command::Turn {
                axis: Axis::Forward,
                angle: signed_angle(old(self)@.turn_reversed, angle as int) as i64,
            }),
    {
        self.turn(Axis::Forward, angle)
    }

    /// Turns about the given body axis, the sign given by the reversal
    /// flag.
    fn turn(&mut self, axis: Axis, angle: i64) -> (cmd: Command)
        requires
            old(self).wf(),
            -(FULL_TURN as int) <= angle <= FULL_TURN as int,
        ensures
            final(self)@ == spec_turn(old(self)@, axis, angle as int),
            final(self).wf(),
            cmd == (Command::Turn {
                axis,
                angle: signed_angle(old(self)@.turn_reversed, angle as int) as i64,
            }),
    {
        let eff = if self.turn_reversed {
            -angle
        } else {
            angle
        };
        self.orientation.rotate(axis, eff);
        proof {
            assert(final(self)@ =~= spec_turn(old(self)@, axis, angle as int));
        }
        Command::Turn { axis, angle: eff }
    }

    /// Saves the current orientation on the stack.
    pub fn push(&mut self)
        requires
            old(self).wf(),
        ensures
            final(self)@ == (TurtleModel { stack: old(self)@.stack.push(old(self)@.orientation), ..old(
                self,
            )@ }),
            final(self).wf(),
    {
        let snapshot = self.orientation.duplicate();
        self.stack.push(snapshot);
        proof {
            assert(final(self)@.stack =~= old(self)@.stack.push(old(self)@.orientation));
            assert(final(self)@ =~= (TurtleModel {
                stack: old(self)@.stack.push(old(self)@.orientation),
                ..old(self)@
            }));
        }
    }

    /// Restores the most recently saved orientation.  On an empty stack
    /// nothing changes and `false` comes back: the caller reports the
    /// underflow and goes on.
    pub fn pop(&mut self) -> (popped: bool)
        requires
            old(self).wf(),
        ensures
            popped == (old(self)@.stack.len() > 0),
            !popped ==> final(self)@ == old(self)@,
            popped ==> final(self)@ == (TurtleModel {
                orientation: old(self)@.stack.last(),
                stack: old(self)@.stack.drop_last(),
                ..old(self)@
            }),
            final(self).wf(),
    {
        match self.stack.pop() {
            Some(snapshot) => {
                self.orientation = snapshot;
                proof {
                    assert(old(self)@.stack.len() > 0);
                    assert(final(self)@.orientation == old(self)@.stack.last());
                    assert(final(self)@.stack =~= old(self)@.stack.drop_last());
                    assert(final(self)@ =~= (TurtleModel {
                        orientation: old(self)@.stack.last(),
                        stack: old(self)@.stack.drop_last(),
                        ..old(self)@
                    }));
                }
                true
            },
            None => {
                proof {
                    assert(final(self)@ =~= old(self)@);
                }
                false
            },
        }
    }

    /// Adds `increment` to the pen thickness, saturating at the limit.
    pub fn increment_thickness(&mut self, increment: i64)
        requires
            old(self).wf(),
            0 <= increment,
        ensures
            final(self)@ == (TurtleModel {
                thickness: clamped(
                    old(self)@.thickness + increment,
                    0,
                    THICKNESS_LIMIT as int,
                ),
                ..old(self)@
            }),
            final(self).wf(),
    {
        if increment > THICKNESS_LIMIT - self.thickness {
            self.thickness = THICKNESS_LIMIT;
        } else {
            self.thickness = self.thickness + increment;
        }
        proof {
            assert(final(self)@ =~= (TurtleModel {
                thickness: clamped(old(self)@.thickness + increment, 0, THICKNESS_LIMIT as int),
                ..old(self)@
            }));
        }
    }

    /// Subtracts `decrement` from the pen thickness, saturating at zero.
    pub fn decrement_thickness(&mut self, decrement: i64)
        requires
            old(self).wf(),
            0 <= decrement,
        ensures
            final(self)@ == (TurtleModel {
                thickness: clamped(
                    old(self)@.thickness - decrement,
                    0,
                    THICKNESS_LIMIT as int,
                ),
                ..old(self)@
            }),
            final(self).wf(),
    {
        if decrement > self.thickness {
            self.thickness = 0;
        } else {
            self.thickness = self.thickness - decrement;
        }
        proof {
            assert(final(self)@ =~= (TurtleModel {
                thickness: clamped(old(self)@.thickness - decrement, 0, THICKNESS_LIMIT as int),
                ..old(self)@
            }));
        }
    }

    /// Toggles the turn-reversal flag: until toggled back, every turning
    /// command turns the opposite way.
    pub fn reverse_turn(&mut self)
        requires
            old(self).wf(),
        ensures
            final(self)@ == spec_reverse(old(self)@),
            final(self).wf(),
    {
        self.turn_reversed = !self.turn_reversed;
        proof {
            assert(final(self)@ =~= spec_reverse(old(self)@));
        }
    }
}

/// Toggling turn reversal, turning, toggling back and turning by the same
/// angle again leaves the orientation as it began: the two turns get
/// opposite signs and cancel exactly.
pub proof fn lemma_turn_reversal_self_inverse(t: TurtleModel, axis: Axis, a: int)
    requires
        t.wf(),
        -(FULL_TURN as int) <= a <= FULL_TURN as int,
    ensures
        spec_turn(spec_reverse(spec_turn(spec_reverse(t), axis, a)), axis, a).orientation
            == t.orientation,
{
    let e = signed_angle(t.turn_reversed, a);
    crate::orientation::lemma_rotation_round_trip(t.orientation, axis, -e);
}

/// A turn by an angle followed by a turn by its negation restores the
/// orientation exactly.
pub proof fn lemma_turn_round_trip(t: TurtleModel, axis: Axis, a: int)
    requires
        t.wf(),
        -(FULL_TURN as int) <= a <= FULL_TURN as int,
    ensures
        spec_turn(spec_turn(t, axis, a), axis, -a).orientation == t.orientation,
{
    let e = signed_angle(t.turn_reversed, a);
    crate::orientation::lemma_rotation_round_trip(t.orientation, axis, e);
}

} // verus!
