//! The abstract drawing commands that interpretation emits, and the
//! diagnostics it accumulates.  A rendering collaborator executes the
//! commands in order against its own real-valued position and frame; the
//! library itself never touches floating-point geometry.

use vstd::prelude::*;

use crate::orientation::Axis;

verus! {

/// An RGB drawing colour, one byte per channel.
#[derive(Clone, Copy, PartialEq, Eq, Structural, Debug)]
pub struct Color {
    pub red: u8,
    pub green: u8,
    pub blue: u8,
}

/// One abstract drawing command.  Lengths, thicknesses and radii are in
/// milli-units, angles in milli-degrees; a renderer executes each command
/// against its own position, frame and matching save/restore stack.
#[derive(Clone, Copy, PartialEq, Eq, Structural, Debug)]
pub enum Command {
    /// Move forward by `length` along the current forward axis, drawing a
    /// line segment of the given thickness and colour.
    Draw { length: i64, thickness: i64, color: Color },
    /// Move forward by `length` without drawing.
    Advance { length: i64 },
    /// Rotate the frame about the given body axis by the given signed
    /// angle (turn reversal already applied).
    Turn { axis: Axis, angle: i64 },
    /// Draw a filled dot of the given radius at the current position.
    Dot { radius: i64, color: Color },
    /// Save the current position and frame.
    Push,
    /// Restore the most recently saved position and frame.
    Restore,
}

/// A non-fatal anomaly met during interpretation; the walk always goes on
/// and still returns a usable result.
#[derive(Clone, Copy, PartialEq, Eq, Structural, Debug)]
pub enum Diagnostic {
    /// A restore was asked for while no state was saved; the state was
    /// left unchanged.
    PopOnEmptyStack,
    /// The symbol belongs to no command and is no declared placeholder; it
    /// was ignored.
    UnknownCommand(char),
}

} // verus!
