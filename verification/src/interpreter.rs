//! The command interpreter: walks a produced symbol string left to right
//! and dispatches one command per symbol to the turtle, accumulating the
//! abstract drawing commands for the renderer and the diagnostics for the
//! caller.  Unknown symbols and restores on an empty stack are reported
//! and otherwise ignored; the walk always completes with a usable result.

use vstd::prelude::*;

use crate::command::{Command, Diagnostic};
use crate::orientation::{Axis, FULL_TURN, HALF_TURN};
use crate::turtle::{
    clamped, signed_angle, spec_reverse, spec_turn, Turtle, TurtleModel, LENGTH_LIMIT,
    THICKNESS_LIMIT,
};

verus! {

/// Milli-degrees by which one command adjusts the turn angle.
pub const TURN_ANGLE_STEP: i64 = 5_000;

/// Milli-units by which one command adjusts the pen thickness.
pub const THICKNESS_STEP: i64 = 1_000;

/// The turtle model, emitted commands and diagnostics of one interpreted
/// symbol.  This is the whole command vocabulary:
///
/// * `F` / `f`: move forward by the step length, drawing / not drawing;
/// * `+` / `-`: turn left / right (yaw) by the turn angle;
/// * `|`: reverse direction (yaw by half a turn);
/// * `^` / `/`: pitch / roll by the turn angle;
/// * `[` / `]`: save / restore position and orientation (a restore on an
///   empty stack is reported and changes nothing);
/// * `#` / `!`: thicken / thin the pen by a fixed step;
/// * `@`: draw a dot of the pen's radius;
/// * `&`: swap the meaning of left and right until swapped back;
/// * `(` / `)`: narrow / widen the turn angle by a fixed step;
/// * `>` / `<`: lengthen the step by half / shorten it back;
/// * `°`: shorten the step by a tenth;
/// * `{`, `}`, `X`, `Y`, `A`: structural placeholders, no effect;
/// * anything else: reported as unknown, no effect.
pub open spec fn step(t: TurtleModel, c: char) -> (TurtleModel, Seq<Command>, Seq<Diagnostic>) {
    if c == 'F' {
        (
            t,
            seq![
                Command::Draw {
                    length: t.line_length as i64,
                    thickness: t.thickness as i64,
                    color: t.color,
                },
            ],
            seq![],
        )
    } else if c == 'f' {
        (t, seq![Command::Advance { length: t.line_length as i64 }], seq![])
    } else if c == '+' {
        (
            spec_turn(t, Axis::Up, -t.turn_angle),
            seq![
                Command::Turn {
                    axis: Axis::Up,
                    angle: signed_angle(t.turn_reversed, -t.turn_angle) as i64,
                },
            ],
            seq![],
        )
    } else if c == '-' {
        (
            spec_turn(t, Axis::Up, t.turn_angle),
            seq![
                Command::Turn {
                    axis: Axis::Up,
                    angle: signed_angle(t.turn_reversed, t.turn_angle) as i64,
                },
            ],
            seq![],
        )
    } else if c == '|' {
        (
            spec_turn(t, Axis::Up, HALF_TURN as int),
            seq![
                Command::Turn {
                    axis: Axis::Up,
                    angle: signed_angle(t.turn_reversed, HALF_TURN as int) as i64,
                },
            ],
            seq![],
        )
    } else if c == '[' {
        (TurtleModel { stack: t.stack.push(t.orientation), ..t }, seq![Command::Push], seq![])
    } else if c == ']' {
        if t.stack.len() == 0 {
            (t, seq![], seq![Diagnostic::PopOnEmptyStack])
        } else {
            (
                TurtleModel { orientation: t.stack.last(), stack: t.stack.drop_last(), ..t },
                seq![Command::Restore],
                seq![],
            )
        }
    } else if c == '#' {
        (
            TurtleModel {
                thickness: clamped(t.thickness + THICKNESS_STEP, 0, THICKNESS_LIMIT as int),
                ..t
            },
            seq![],
            seq![],
        )
    } else if c == '!' {
        (
            TurtleModel {
                thickness: clamped(t.thickness - THICKNESS_STEP, 0, THICKNESS_LIMIT as int),
                ..t
            },
            seq![],
            seq![],
        )
    } else if c == '@' {
        (t, seq![Command::Dot { radius: t.thickness as i64, color: t.color }], seq![])
    } else if c == '&' {
        (spec_reverse(t), seq![], seq![])
    } else if c == '(' {
        (
            TurtleModel {
                turn_angle: clamped(
                    t.turn_angle - TURN_ANGLE_STEP,
                    -(FULL_TURN as int),
                    FULL_TURN as int,
                ),
                ..t
            },
            seq![],
            seq![],
        )
    } else if c == ')' {
        (
            TurtleModel {
                turn_angle: clamped(
                    t.turn_angle + TURN_ANGLE_STEP,
                    -(FULL_TURN as int),
                    FULL_TURN as int,
                ),
                ..t
            },
            seq![],
            seq![],
        )
    } else if c == '>' {
        (
            TurtleModel {
                line_length: clamped(t.line_length * 3 / 2, 0, LENGTH_LIMIT as int),
                ..t
            },
            seq![],
            seq![],
        )
    } else if c == '<' {
        (TurtleModel { line_length: t.line_length * 2 / 3, ..t }, seq![], seq![])
    } else if c == '\u{b0}' {
        (TurtleModel { line_length: t.line_length * 9 / 10, ..t }, seq![], seq![])
    } else if c == '^' {
        (
            spec_turn(t, Axis::Right, t.turn_angle),
            seq![
                Command::Turn {
                    axis: Axis::Right,
                    angle: signed_angle(t.turn_reversed, t.turn_angle) as i64,
                },
            ],
            seq![],
        )
    } else if c == '/' {
        (
            spec_turn(t, Axis::Forward, t.turn_angle),
            seq![
                Command::Turn {
                    axis: Axis::Forward,
                    angle: signed_angle(t.turn_reversed, t.turn_angle) as i64,
                },
            ],
            seq![],
        )
    } else if c == '{' || c == '}' || c == 'X' || c == 'Y' || c == 'A' {
        (t, seq![], seq![])
    } else {
        (t, seq![], seq![Diagnostic::UnknownCommand(c)])
    }
}

/// The turtle model, commands and diagnostics of a whole interpreted
/// string, symbol by symbol from the left.
pub open spec fn run(t: TurtleModel, path: Seq<char>) -> (TurtleModel, Seq<Command>, Seq<
    Diagnostic,
>)
    decreases path.len(),
{
    if path.len() == 0 {
        (t, seq![], seq![])
    } else {
        let s = step(t, path[0]);
        let r = run(s.0, path.skip(1));
        (r.0, s.1 + r.1, s.2 + r.2)
    }
}

/// Appending one element is the same as concatenating a one-element
/// sequence.
proof fn lemma_push_is_append_one<T>(s: Seq<T>, x: T)
    ensures
        s.push(x) == s + seq![x],
{
    assert(s.push(x) =~= s + seq![x]);
}

/// One interpreted symbol keeps the turtle model well formed.
pub proof fn lemma_step_wf(t: TurtleModel, c: char)
    requires
        t.wf(),
    ensures
        step(t, c).0.wf(),
{
    if c == '+' {
        crate::orientation::lemma_word_apply_wf(
            t.orientation,
            Axis::Up,
            signed_angle(t.turn_reversed, -t.turn_angle),
        );
    } else if c == '-' {
        crate::orientation::lemma_word_apply_wf(
            t.orientation,
            Axis::Up,
            signed_angle(t.turn_reversed, t.turn_angle),
        );
    } else if c == '|' {
        crate::orientation::lemma_word_apply_wf(
            t.orientation,
            Axis::Up,
            signed_angle(t.turn_reversed, HALF_TURN as int),
        );
    } else if c == '^' {
        crate::orientation::lemma_word_apply_wf(
            t.orientation,
            Axis::Right,
            signed_angle(t.turn_reversed, t.turn_angle),
        );
    } else if c == '/' {
        crate::orientation::lemma_word_apply_wf(
            t.orientation,
            Axis::Forward,
            signed_angle(t.turn_reversed, t.turn_angle),
        );
    } else if c == '[' {
        let s = t.stack.push(t.orientation);
        assert forall|i: int| 0 <= i < s.len() implies crate::orientation::wf_word(
            #[trigger] s[i],
        ) by {
            if i < t.stack.len() {
                assert(s[i] == t.stack[i]);
            } else {
                assert(s[i] == t.orientation);
            }
        }
    } else if c == ']' {
        if t.stack.len() > 0 {
            let s = t.stack.drop_last();
            assert(crate::orientation::wf_word(t.stack[t.stack.len() - 1]));
            assert forall|i: int| 0 <= i < s.len() implies crate::orientation::wf_word(
                #[trigger] s[i],
            ) by {
                assert(s[i] == t.stack[i]);
            }
        }
    } else if c == '<' {
        assert(0 <= t.line_length * 2 / 3 <= LENGTH_LIMIT as int) by {
            assert(0 <= t.line_length * 2 <= 2 * LENGTH_LIMIT as int);
        };
    } else if c == '\u{b0}' {
        assert(0 <= t.line_length * 9 / 10 <= LENGTH_LIMIT as int) by {
            assert(0 <= t.line_length * 9 <= 9 * LENGTH_LIMIT as int);
        };
    }
}

/// Interpreting a whole string keeps the turtle model well formed.
pub proof fn lemma_run_wf(t: TurtleModel, path: Seq<char>)
    requires
        t.wf(),
    ensures
        run(t, path).0.wf(),
    decreases path.len(),
{
    if path.len() > 0 {
        lemma_step_wf(t, path[0]);
        lemma_run_wf(step(t, path[0]).0, path.skip(1));
    }
}

/// Interpretation composes over concatenation: the second part starts from
/// the model the first part reached, and commands and diagnostics append.
pub proof fn lemma_run_append(t: TurtleModel, a: Seq<char>, b: Seq<char>)
    ensures
        ({
            let ra = run(t, a);
            let rb = run(ra.0, b);
            run(t, a + b) == (rb.0, ra.1 + rb.1, ra.2 + rb.2)
        }),
    decreases a.len(),
{
    let ra = run(t, a);
    let rb = run(ra.0, b);
    if a.len() == 0 {
        assert(a + b =~= b);
        assert(Seq::<Command>::empty() + rb.1 =~= rb.1);
        assert(Seq::<Diagnostic>::empty() + rb.2 =~= rb.2);
    } else {
        let s = step(t, a[0]);
        lemma_run_append(s.0, a.skip(1), b);
        assert((a + b).skip(1) =~= a.skip(1) + b);
        assert((a + b)[0] == a[0]);
        let ra2 = run(s.0, a.skip(1));
        let rb2 = run(ra2.0, b);
        assert(s.1 + (ra2.1 + rb2.1) =~= (s.1 + ra2.1) + rb2.1);
        assert(s.2 + (ra2.2 + rb2.2) =~= (s.2 + ra2.2) + rb2.2);
    }
}

/// Interpreting one more trailing symbol steps the reached model once and
/// appends that step's commands and diagnostics.
pub proof fn lemma_run_snoc(t: TurtleModel, path: Seq<char>, c: char)
    ensures
        ({
            let r = run(t, path);
            let s = step(r.0, c);
            run(t, path.push(c)) == (s.0, r.1 + s.1, r.2 + s.2)
        }),
{
    let r = run(t, path);
    let s = step(r.0, c);
    lemma_run_append(t, path, seq![c]);
    reveal_with_fuel(run, 2);
    assert(path + seq![c] =~= path.push(c));
    assert(seq![c].skip(1) =~= Seq::<char>::empty());
    assert(run(r.0, seq![c]).0 == s.0);
    assert(run(r.0, seq![c]).1 =~= s.1);
    assert(run(r.0, seq![c]).2 =~= s.2);
    assert(r.1 + run(r.0, seq![c]).1 =~= r.1 + s.1);
    assert(r.2 + run(r.0, seq![c]).2 =~= r.2 + s.2);
}

/// Interprets the symbol string, driving the turtle and collecting the
/// drawing commands and the diagnostics, exactly as the specification-level
/// walk describes.
pub fn interpret(turtle: &mut Turtle, path: &Vec<char>) -> (r: (Vec<Command>, Vec<Diagnostic>))
    requires
        old(turtle).wf(),
    ensures
        ({
            let rr = run(old(turtle)@, path@);
            final(turtle)@ == rr.0 && r.0@ == rr.1 && r.1@ == rr.2 && final(turtle).wf()
        }),
{
    let n = path.len();
    let mut cmds: Vec<Command> = Vec::new();
    let mut diags: Vec<Diagnostic> = Vec::new();
    let mut i: usize = 0;
    proof {
        assert(path@.take(0) =~= Seq::<char>::empty());
    }
    while i < n
        invariant
            n == path@.len(),
            i <= n,
            turtle.wf(),
            turtle@ == run(old(turtle)@, path@.take(i as int)).0,
            cmds@ == run(old(turtle)@, path@.take(i as int)).1,
            diags@ == run(old(turtle)@, path@.take(i as int)).2,
        decreases n - i,
    {
        let c = path[i];
        let ghost prefix = path@.take(i as int);
        let ghost before = turtle@;
        let ghost pre_diags = diags@;
        proof {
            lemma_run_snoc(old(turtle)@, prefix, c);
            assert(prefix.push(c) =~= path@.take(i as int + 1));
            lemma_step_wf(before, c);
        }
        let ghost s = step(before, c);
        match c {
            'F' => {
                let cmd = turtle.forward(turtle.line_length);
                cmds.push(cmd);
            },
            'f' => {
                let cmd = turtle.forward_no_draw(turtle.line_length);
                cmds.push(cmd);
            },
            '+' => {
                let a = turtle.turn_angle;
                let cmd = turtle.yaw(-a);
                cmds.push(cmd);
            },
            '-' => {
                let a = turtle.turn_angle;
                let cmd = turtle.yaw(a);
                cmds.push(cmd);
            },
            '|' => {
                let cmd = turtle.yaw(HALF_TURN);
                cmds.push(cmd);
            },
            '[' => {
                turtle.push();
                cmds.push(Command::Push);
            },
            ']' => {
                if turtle.pop() {
                    cmds.push(Command::Restore);
                } else {
                    diags.push(Diagnostic::PopOnEmptyStack);
                    proof {
                        assert(before.stack.len() == 0);
                        assert(s.2 == seq![Diagnostic::PopOnEmptyStack]);
                        lemma_push_is_append_one(pre_diags, Diagnostic::PopOnEmptyStack);
                    }
                }
            },
            '#' => {
                turtle.increment_thickness(THICKNESS_STEP);
            },
            '!' => {
                turtle.decrement_thickness(THICKNESS_STEP);
            },
            '@' => {
                let cmd = turtle.dot(turtle.thickness);
                cmds.push(cmd);
            },
            '&' => {
                turtle.reverse_turn();
            },
            '(' => {
                let v = turtle.turn_angle - TURN_ANGLE_STEP;
                turtle.turn_angle = if v < -FULL_TURN {
                    -FULL_TURN
                } else {
                    v
                };
                proof {
                    assert(turtle@ =~= s.0);
                }
            },
            ')' => {
                let v = turtle.turn_angle + TURN_ANGLE_STEP;
                turtle.turn_angle = if v > FULL_TURN {
                    FULL_TURN
                } else {
                    v
                };
                proof {
                    assert(turtle@ =~= s.0);
                }
            },
            '>' => {
                let v = turtle.line_length * 3 / 2;
                turtle.line_length = if v > LENGTH_LIMIT {
                    LENGTH_LIMIT
                } else {
                    v
                };
                proof {
                    assert(turtle@ =~= s.0);
                }
            },
            '<' => {
                turtle.line_length = turtle.line_length * 2 / 3;
                proof {
                    assert(turtle@ =~= s.0);
                }
            },
            '\u{b0}' => {
                turtle.line_length = turtle.line_length * 9 / 10;
                proof {
                    assert(turtle@ =~= s.0);
                }
            },
            '^' => {
                let a = turtle.turn_angle;
                let cmd = turtle.pitch(a);
                cmds.push(cmd);
            },
            '/' => {
                let a = turtle.turn_angle;
                let cmd = turtle.roll(a);
                cmds.push(cmd);
            },
            '{' | '}' | 'X' | 'Y' | 'A' => {},
            _ => {
                diags.push(Diagnostic::UnknownCommand(c));
                proof {
                    let x = Diagnostic::UnknownCommand(c);
                    assert(s.2 == seq![x]);
                    lemma_push_is_append_one(pre_diags, x);
                }
            },
        }
        proof {
            assert(turtle@ =~= s.0);
            assert(cmds@ =~= run(old(turtle)@, prefix).1 + s.1);
            assert(diags@ =~= run(old(turtle)@, prefix).2 + s.2);
        }
        i += 1;
    }
    proof {
        assert(path@.take(n as int) =~= path@);
    }
    (cmds, diags)
}


/// How many save commands (`[`) a symbol string holds.
pub open spec fn count_pushes(path: Seq<char>) -> int
    decreases path.len(),
{
    if path.len() == 0 {
        0
    } else {
        (if path[0] == '[' {
            1int
        } else {
            0int
        }) + count_pushes(path.skip(1))
    }
}

/// How many restore commands (`]`) a symbol string holds.
pub open spec fn count_pops(path: Seq<char>) -> int
    decreases path.len(),
{
    if path.len() == 0 {
        0
    } else {
        (if path[0] == ']' {
            1int
        } else {
            0int
        }) + count_pops(path.skip(1))
    }
}

/// One step reports no stack underflow unless it is a restore on an empty
/// stack.
proof fn lemma_step_no_underflow_diag(t: TurtleModel, c: char)
    requires
        c == ']' ==> t.stack.len() > 0,
    ensures
        !step(t, c).2.contains(Diagnostic::PopOnEmptyStack),
{
    let d = step(t, c).2;
    if d.contains(Diagnostic::PopOnEmptyStack) {
        let j = choose|j: int| 0 <= j < d.len() && d[j] == Diagnostic::PopOnEmptyStack;
        assert(d[j] == Diagnostic::UnknownCommand(c));
        assert(false);
    }
}

/// A concatenation of two diagnostic runs without underflow reports has no
/// underflow report.
proof fn lemma_no_underflow_in_append(a: Seq<Diagnostic>, b: Seq<Diagnostic>)
    requires
        !a.contains(Diagnostic::PopOnEmptyStack),
        !b.contains(Diagnostic::PopOnEmptyStack),
    ensures
        !(a + b).contains(Diagnostic::PopOnEmptyStack),
{
    if (a + b).contains(Diagnostic::PopOnEmptyStack) {
        let j = choose|j: int|
            0 <= j < (a + b).len() && (a + b)[j] == Diagnostic::PopOnEmptyStack;
        if j < a.len() {
            assert(a[j] == Diagnostic::PopOnEmptyStack);
            assert(a.contains(Diagnostic::PopOnEmptyStack));
        } else {
            assert(b[j - a.len()] == Diagnostic::PopOnEmptyStack);
            assert(b.contains(Diagnostic::PopOnEmptyStack));
        }
        assert(false);
    }
}

/// The stack discipline of a run.  When at every prefix the restores never
/// outnumber the saves plus the slack above `base`, the walk never
/// underflows, the stack's net growth is saves minus restores, and the
/// bottom `base` saved snapshots are never touched.
pub proof fn lemma_stack_discipline(t: TurtleModel, path: Seq<char>, base: int)
    requires
        0 <= base <= t.stack.len(),
        forall|i: int|
            0 <= i <= path.len() ==> count_pops(#[trigger] path.take(i)) <= count_pushes(
                path.take(i),
            ) + (t.stack.len() - base),
    ensures
        run(t, path).0.stack.len() == t.stack.len() + count_pushes(path) - count_pops(path),
        run(t, path).0.stack.take(base) == t.stack.take(base),
        !run(t, path).2.contains(Diagnostic::PopOnEmptyStack),
    decreases path.len(),
{
    if path.len() == 0 {
        assert(!Seq::<Diagnostic>::empty().contains(Diagnostic::PopOnEmptyStack));
    } else {
        let c = path[0];
        let s = step(t, c);
        let rest = path.skip(1);
        assert(path.take(1).skip(1) =~= Seq::<char>::empty());
        assert(path.take(1)[0] == c);
        assert(count_pops(Seq::<char>::empty()) == 0);
        assert(count_pushes(Seq::<char>::empty()) == 0);
        assert(count_pops(path.take(1)) <= count_pushes(path.take(1)) + (t.stack.len() - base));
        if c == '[' {
            assert(s.0.stack == t.stack.push(t.orientation));
            assert(s.0.stack.take(base) =~= t.stack.take(base));
        } else if c == ']' {
            assert(t.stack.len() >= base + 1);
            assert(s.0.stack == t.stack.drop_last());
            assert(s.0.stack.take(base) =~= t.stack.take(base));
        } else {
            assert(s.0.stack == t.stack);
        }
        lemma_step_no_underflow_diag(t, c);
        assert forall|i: int|
            0 <= i <= rest.len() implies count_pops(#[trigger] rest.take(i)) <= count_pushes(
            rest.take(i),
        ) + (s.0.stack.len() - base) by {
            assert(path.take(i + 1).skip(1) =~= rest.take(i));
            assert(path.take(i + 1)[0] == c);
            assert(count_pops(path.take(i + 1)) <= count_pushes(path.take(i + 1)) + (t.stack.len()
                - base));
        }
        lemma_stack_discipline(s.0, rest, base);
        let r = run(s.0, rest);
        assert(path.skip(1) == rest);
        lemma_no_underflow_in_append(s.2, r.2);
        assert(run(t, path).2 == s.2 + r.2);
        assert(run(t, path).0.stack.take(base) == t.stack.take(base));
    }
}

/// When at every prefix of the symbol string the restores never outnumber
/// the saves plus the snapshots already on the stack, no underflow is ever
/// reported.
pub proof fn lemma_balanced_run_never_underflows(t: TurtleModel, path: Seq<char>)
    requires
        forall|i: int|
            0 <= i <= path.len() ==> count_pops(#[trigger] path.take(i)) <= count_pushes(
                path.take(i),
            ) + t.stack.len(),
    ensures
        !run(t, path).2.contains(Diagnostic::PopOnEmptyStack),
{
    lemma_stack_discipline(t, path, 0);
}

/// A matched save/restore pair around a balanced body restores exactly the
/// orientation and stack from before the save, whatever the body did, and
/// the whole walk reports no underflow.
pub proof fn lemma_push_pop_restores(t: TurtleModel, inner: Seq<char>)
    requires
        forall|i: int|
            0 <= i <= inner.len() ==> count_pops(#[trigger] inner.take(i)) <= count_pushes(
                inner.take(i),
            ),
        count_pops(inner) == count_pushes(inner),
    ensures
        ({
            let r = run(t, seq!['['] + inner + seq![']']);
            r.0.orientation == t.orientation && r.0.stack == t.stack && !r.2.contains(
                Diagnostic::PopOnEmptyStack,
            )
        }),
{
    reveal_with_fuel(run, 2);
    let t1 = step(t, '[').0;
    assert(t1.stack == t.stack.push(t.orientation));
    assert(seq!['['].skip(1) =~= Seq::<char>::empty());
    assert(run(t, seq!['[']).0 == t1);
    let base = t1.stack.len() as int;
    lemma_stack_discipline(t1, inner, base);
    let r1 = run(t1, inner);
    assert(r1.0.stack.len() == base);
    assert(t1.stack.take(base) =~= t1.stack);
    assert(r1.0.stack.take(base) =~= r1.0.stack);
    assert(r1.0.stack == t1.stack);
    let s2 = step(r1.0, ']');
    assert(r1.0.stack.len() > 0);
    assert(s2.0.orientation == t.orientation);
    assert(t1.stack.drop_last() =~= t.stack);
    assert(s2.0.stack == t.stack);
    lemma_run_append(t, seq!['['] + inner, seq![']']);
    lemma_run_append(t, seq!['['], inner);
    assert(seq![']'].skip(1) =~= Seq::<char>::empty());
    assert(run(r1.0, seq![']']).0 == s2.0);
    let full = seq!['['] + inner + seq![']'];
    assert(run(t, full).0 == s2.0);
    lemma_step_no_underflow_diag(t, '[');
    lemma_step_no_underflow_diag(r1.0, ']');
    assert(!run(t, seq!['[']).2.contains(Diagnostic::PopOnEmptyStack));
    lemma_no_underflow_in_append(run(t, seq!['[']).2, r1.2);
    lemma_no_underflow_in_append(run(t, seq!['['] + inner).2, run(r1.0, seq![']']).2);
}

} // verus!
