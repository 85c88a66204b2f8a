//! The turtle's orientation, tracked exactly.  An orientation is the
//! reduced word of intrinsic rotations applied so far: each rotation turns
//! about one of the turtle's own axes by a nonzero angle below a full turn,
//! and no two neighbouring rotations share an axis (two successive turns
//! about the same body axis always merge, since the first leaves that axis
//! in place).  Angles are integer milli-degrees, so composition and
//! cancellation are exact; a rendering collaborator turns the word into a
//! real-valued frame.

use vstd::prelude::*;

verus! {

/// Milli-degrees in one full turn.
pub const FULL_TURN: i64 = 360_000;

/// Milli-degrees in half a turn.
pub const HALF_TURN: i64 = 180_000;

/// The turtle's own axes: yawing turns about `Up`, pitching about `Right`,
/// rolling about `Forward` (the axis the turtle moves along).
#[derive(Clone, Copy, PartialEq, Eq, Structural, Debug)]
pub enum Axis {
    Up,
    Right,
    Forward,
}

/// One intrinsic rotation: an angle in milli-degrees about one body axis.
#[derive(Clone, Copy, PartialEq, Eq, Structural, Debug)]
pub struct Rotation {
    pub axis: Axis,
    pub angle: i64,
}

/// `a` reduced into `[0, FULL_TURN)`, for `a` within two turns of zero.
pub open spec fn norm_angle(a: int) -> int
    recommends
        -2 * (FULL_TURN as int) < a < 2 * (FULL_TURN as int),
{
    if a < 0 {
        if a + (FULL_TURN as int) < 0 {
            a + 2 * (FULL_TURN as int)
        } else {
            a + (FULL_TURN as int)
        }
    } else if a >= FULL_TURN as int {
        a - (FULL_TURN as int)
    } else {
        a
    }
}

/// A reduced rotation word: every angle is nonzero and below a full turn,
/// and no two neighbouring rotations share an axis.
pub open spec fn wf_word(w: Seq<Rotation>) -> bool
    decreases w.len(),
{
    if w.len() == 0 {
        true
    } else {
        0 < w.last().angle < FULL_TURN as int && (w.len() == 1 || w[w.len() - 2].axis
            != w.last().axis) && wf_word(w.drop_last())
    }
}

/// The word after one more intrinsic rotation about `axis` by `a`: a zero
/// rotation changes nothing; a rotation about the same axis as the last
/// entry merges with it (and drops it when they cancel); any other rotation
/// is appended.
pub open spec fn word_apply(w: Seq<Rotation>, axis: Axis, a: int) -> Seq<Rotation>
    recommends
        -2 * (FULL_TURN as int) < a < 2 * (FULL_TURN as int),
{
    let n = norm_angle(a);
    if n == 0 {
        w
    } else if w.len() > 0 && w.last().axis == axis {
        let m = norm_angle(w.last().angle + n);
        if m == 0 {
            w.drop_last()
        } else {
            w.update(w.len() - 1, Rotation { axis, angle: m as i64 })
        }
    } else {
        w.push(Rotation { axis, angle: n as i64 })
    }
}

/// Applying a rotation keeps the word reduced.
pub proof fn lemma_word_apply_wf(w: Seq<Rotation>, axis: Axis, a: int)
    requires
        wf_word(w),
        -2 * (FULL_TURN as int) < a < 2 * (FULL_TURN as int),
    ensures
        wf_word(word_apply(w, axis, a)),
{
    let n = norm_angle(a);
    if n == 0 {
    } else if w.len() > 0 && w.last().axis == axis {
        let m = norm_angle(w.last().angle + n);
        if m == 0 {
        } else {
            let v = w.update(w.len() - 1, Rotation { axis, angle: m as i64 });
            assert(v.last() == Rotation { axis, angle: m as i64 });
            if v.len() > 1 {
                assert(v[v.len() - 2] == w[w.len() - 2]);
            }
            assert(v.drop_last() =~= w.drop_last());
        }
    } else {
        let v = w.push(Rotation { axis, angle: n as i64 });
        assert(v.last() == Rotation { axis, angle: n as i64 });
        if v.len() > 1 {
            assert(v[v.len() - 2] == w.last());
        }
        assert(v.drop_last() =~= w);
    }
}

/// A turn about an axis followed by the opposite turn about the same axis
/// restores the orientation word exactly.
pub proof fn lemma_rotation_round_trip(w: Seq<Rotation>, axis: Axis, a: int)
    requires
        wf_word(w),
        -2 * (FULL_TURN as int) < a < 2 * (FULL_TURN as int),
    ensures
        word_apply(word_apply(w, axis, a), axis, -a) == w,
{
    let n = norm_angle(a);
    let n2 = norm_angle(-a);
    assert(n == 0 ==> n2 == 0);
    assert(n != 0 ==> n2 == FULL_TURN as int - n);
    if n == 0 {
    } else if w.len() > 0 && w.last().axis == axis {
        let l = w.last().angle as int;
        let m = norm_angle(l + n);
        if m == 0 {
            let w1 = w.drop_last();
            assert(n2 == l);
            if w1.len() > 0 {
                assert(w1.last() == w[w.len() - 2]);
                assert(w1.last().axis != axis);
            }
            let w2 = word_apply(w1, axis, -a);
            assert(w2 == w1.push(Rotation { axis, angle: l as i64 }));
            assert(w1.push(Rotation { axis, angle: l as i64 }) =~= w);
        } else {
            let w1 = w.update(w.len() - 1, Rotation { axis, angle: m as i64 });
            assert(w1.last().axis == axis);
            assert(norm_angle(m + n2) == l);
            let w2 = word_apply(w1, axis, -a);
            assert(w2 == w1.update(w1.len() - 1, Rotation { axis, angle: l as i64 }));
            assert(w1.update(w1.len() - 1, Rotation { axis, angle: l as i64 }) =~= w);
        }
    } else {
        let w1 = w.push(Rotation { axis, angle: n as i64 });
        assert(w1.last().axis == axis);
        assert(norm_angle(n + n2) == 0);
        let w2 = word_apply(w1, axis, -a);
        assert(w2 == w1.drop_last());
        assert(w1.drop_last() =~= w);
    }
}

/// The turtle's orientation: a reduced word of intrinsic rotations.
#[derive(Debug, PartialEq, Eq)]
pub struct Orientation {
    rots: Vec<Rotation>,
}

impl View for Orientation {
    type V = Seq<Rotation>;

    closed spec fn view(&self) -> Seq<Rotation> {
        self.rots@
    }
}

impl Orientation {
    /// The word is reduced.
    pub open spec fn wf(&self) -> bool {
        wf_word(self@)
    }

    /// The identity orientation: no rotation applied, the turtle's frame as
    /// it started.
    pub fn identity() -> (r: Orientation)
        ensures
            r@ == Seq::<Rotation>::empty(),
            r.wf(),
    {
        Orientation { rots: Vec::new() }
    }

    /// An exact copy of this orientation, for saving on the stack.
    pub fn duplicate(&self) -> (r: Orientation)
        ensures
            r@ == self@,
    {
        let n = self.rots.len();
        let mut v: Vec<Rotation> = Vec::new();
        let mut i: usize = 0;
        while i < n
            invariant
                n == self.rots.len(),
                i <= n,
                v@ == self.rots@.take(i as int),
            decreases n - i,
        {
            v.push(self.rots[i]);
            proof {
                assert(self.rots@.take(i as int).push(self.rots@[i as int]) =~= self.rots@.take(
                    i as int + 1,
                ));
            }
            i += 1;
        }
        proof {
            assert(self.rots@.take(n as int) =~= self.rots@);
        }
        Orientation { rots: v }
    }

    /// Composes one more intrinsic rotation about `axis` by `angle`
    /// milli-degrees into the word, keeping it reduced.
    pub fn rotate(&mut self, axis: Axis, angle: i64)
        requires
            old(self).wf(),
            -2 * (FULL_TURN as int) < angle < 2 * (FULL_TURN as int),
        ensures
            final(self)@ == word_apply(old(self)@, axis, angle as int),
            final(self).wf(),
    {
        proof {
            lemma_word_apply_wf(old(self)@, axis, angle as int);
        }
        let n = norm_angle_exec(angle);
        if n == 0 {
            return ;
        }
        let len = self.rots.len();
        if len > 0 {
            let last = self.rots[len - 1];
            if last.axis == axis {
                let m = norm_angle_exec(last.angle + n);
                if m == 0 {
                    self.rots.pop();
                    proof {
                        assert(self@ =~= old(self)@.drop_last());
                    }
                } else {
                    self.rots.set(len - 1, Rotation { axis, angle: m });
                }
                return ;
            }
        }
        self.rots.push(Rotation { axis, angle: n });
    }
}

/// Reduces an angle within two turns of zero into `[0, FULL_TURN)`.
fn norm_angle_exec(a: i64) -> (r: i64)
    requires
        -2 * (FULL_TURN as int) < a < 2 * (FULL_TURN as int),
    ensures
        r == norm_angle(a as int),
        0 <= r < FULL_TURN,
{
    let mut r = a;
    if r < 0 {
        r = r + FULL_TURN;
    }
    if r < 0 {
        r = r + FULL_TURN;
    }
    if r >= FULL_TURN {
        r = r - FULL_TURN;
    }
    r
}

} // verus!
