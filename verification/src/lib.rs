//! Procedural generation of branching geometry from symbolic grammars
//! (L-systems): a grammar rewriting engine (deterministic and stochastic
//! string production) and a stack-based turtle interpreter that maps a
//! produced symbol string to a sequence of abstract drawing commands.
//!
//! The library works on exact values throughout: symbols are `char`s,
//! probabilities are integer weights out of a fixed scale, angles are
//! integer milli-degrees, and lengths and thicknesses are integer
//! milli-units.  A rendering collaborator consumes the emitted commands and
//! is responsible for turning them into real-valued geometry and pixels.

pub mod command;
pub mod grammar;
pub mod interpreter;
pub mod orientation;
pub mod presets;
pub mod randomness;
pub mod stochastic;
pub mod turtle;
