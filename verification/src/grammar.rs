//! The grammar rewriting engine: deterministic one-step production of a
//! symbol string under a rule table.  Symbols with no rule are constants
//! and pass through production unchanged; symbols with a rule are replaced
//! by the rule's right-hand side, in order, with nothing dropped.

use vstd::prelude::*;

verus! {

/// A deterministic rule table: each entry maps one symbol to the sequence
/// of symbols that replaces it in a production step.  When a symbol occurs
/// in more than one entry, the earliest entry wins; symbols with no entry
/// are constants and pass through production unchanged.
pub struct Rules {
    pub entries: Vec<(char, Vec<char>)>,
}

/// The replacement that `rules` assigns to symbol `c`: the right-hand side
/// of the first entry for `c`, or `None` when `c` has no entry.
pub open spec fn rule_for(rules: Seq<(char, Seq<char>)>, c: char) -> Option<Seq<char>>
    decreases rules.len(),
{
    if rules.len() == 0 {
        None
    } else if rules[0].0 == c {
        Some(rules[0].1)
    } else {
        rule_for(rules.skip(1), c)
    }
}

/// The block that one symbol contributes to a production step: its
/// replacement when it has a rule, the symbol itself when it has none.
pub open spec fn replacement_of(rules: Seq<(char, Seq<char>)>, c: char) -> Seq<char> {
    match rule_for(rules, c) {
        Some(rep) => rep,
        None => seq![c],
    }
}

/// One production step: every symbol of `start`, in order, is replaced by
/// the block it contributes under `rules`.
pub open spec fn spec_produce(start: Seq<char>, rules: Seq<(char, Seq<char>)>) -> Seq<char>
    decreases start.len(),
{
    if start.len() == 0 {
        Seq::<char>::empty()
    } else {
        replacement_of(rules, start[0]) + spec_produce(start.skip(1), rules)
    }
}

impl View for Rules {
    type V = Seq<(char, Seq<char>)>;

    open spec fn view(&self) -> Seq<(char, Seq<char>)> {
        self.entries@.map_values(|e: (char, Vec<char>)| (e.0, e.1@))
    }
}

impl Rules {
    /// An empty rule table, under which every symbol is a constant.
    pub fn new() -> (r: Rules)
        ensures
            r@ == Seq::<(char, Seq<char>)>::empty(),
    {
        let r = Rules { entries: Vec::new() };
        proof {
            assert(r@ =~= Seq::<(char, Seq<char>)>::empty());
        }
        r
    }

    /// Appends one rule `symbol -> replacement` to the table.  An earlier
    /// rule for the same symbol keeps priority.
    pub fn insert(&mut self, symbol: char, replacement: Vec<char>)
        ensures
            final(self)@ == old(self)@.push((symbol, replacement@)),
    {
        let ghost old_view = self@;
        self.entries.push((symbol, replacement));
        proof {
            assert(self@ =~= old_view.push((symbol, replacement@)));
        }
    }

    /// Looks the symbol up in the table: the first matching entry's
    /// right-hand side, or `None` when the symbol has no rule.
    pub fn get(&self, c: char) -> (r: Option<&Vec<char>>)
        ensures
            match r {
                Some(v) => rule_for(self@, c) == Some(v@),
                None => rule_for(self@, c) is None,
            },
    {
        let n = self.entries.len();
        let mut i: usize = 0;
        proof {
            assert(self@.skip(0) =~= self@);
        }
        while i < n
            invariant
                n == self.entries.len(),
                i <= n,
                rule_for(self@, c) == rule_for(self@.skip(i as int), c),
            decreases n - i,
        {
            proof {
                assert(self@.skip(i as int)[0] == self@[i as int]);
            }
            if self.entries[i].0 == c {
                return Some(&self.entries[i].1);
            }
            proof {
                assert(self@.skip(i as int).skip(1) =~= self@.skip(i as int + 1));
            }
            i += 1;
        }
        proof {
            assert(self@.skip(n as int) =~= Seq::<(char, Seq<char>)>::empty());
        }
        None
    }
}

/// Appends every symbol of `src` to `dst`, in order.
pub(crate) fn push_all(dst: &mut Vec<char>, src: &Vec<char>)
    ensures
        final(dst)@ == old(dst)@ + src@,
{
    let n = src.len();
    let mut j: usize = 0;
    while j < n
        invariant
            n == src.len(),
            j <= n,
            dst@ == old(dst)@ + src@.take(j as int),
        decreases n - j,
    {
        dst.push(src[j]);
        proof {
            assert(old(dst)@ + src@.take(j as int) + seq![src@[j as int]] =~= old(
                dst,
            )@ + src@.take(j as int + 1));
        }
        j += 1;
    }
    proof {
        assert(src@.take(n as int) =~= src@);
    }
}

/// Production appends blocks one symbol at a time: rewriting `start` with
/// one more trailing symbol appends that symbol's block to the result.
proof fn lemma_produce_snoc(start: Seq<char>, rules: Seq<(char, Seq<char>)>, c: char)
    ensures
        spec_produce(start.push(c), rules) == spec_produce(start, rules) + replacement_of(rules, c),
    decreases start.len(),
{
    if start.len() == 0 {
        let p = start.push(c);
        assert(p[0] == c);
        assert(p.skip(1) =~= Seq::<char>::empty());
        assert(spec_produce(p.skip(1), rules) == Seq::<char>::empty());
        assert(spec_produce(p, rules) == replacement_of(rules, c) + Seq::<char>::empty());
        assert(spec_produce(start, rules) == Seq::<char>::empty());
        assert(replacement_of(rules, c) + Seq::<char>::empty() =~= Seq::<char>::empty()
            + replacement_of(rules, c));
    } else {
        assert(start.push(c).skip(1) =~= start.skip(1).push(c));
        lemma_produce_snoc(start.skip(1), rules, c);
        assert(spec_produce(start.push(c), rules) =~= spec_produce(start, rules)
            + replacement_of(rules, c));
    }
}

/// One generation step of the grammar: every symbol of `start` with a rule
/// is replaced by the rule's right-hand side, every other symbol is kept,
/// in order.  Pure: the rule table is not changed.
pub fn produce(start: &Vec<char>, rules: &Rules) -> (r: Vec<char>)
    ensures
        r@ == spec_produce(start@, rules@),
{
    let n = start.len();
    let mut s: Vec<char> = Vec::new();
    let mut i: usize = 0;
    while i < n
        invariant
            n == start.len(),
            i <= n,
            s@ == spec_produce(start@.take(i as int), rules@),
        decreases n - i,
    {
        let c = start[i];
        proof {
            lemma_produce_snoc(start@.take(i as int), rules@, c);
            assert(start@.take(i as int).push(c) =~= start@.take(i as int + 1));
        }
        match rules.get(c) {
            Some(replacement) => {
                push_all(&mut s, replacement);
            },
            None => {
                s.push(c);
                proof {
                    assert(spec_produce(start@.take(i as int), rules@).push(c) =~= spec_produce(
                        start@.take(i as int),
                        rules@,
                    ) + replacement_of(rules@, c));
                }
            },
        }
        i += 1;
    }
    proof {
        assert(start@.take(n as int) =~= start@);
    }
    s
}

/// A symbol with no rule contributes exactly itself to a production step,
/// so a string of such constants passes through production unchanged.
pub proof fn lemma_constants_unchanged(start: Seq<char>, rules: Seq<(char, Seq<char>)>)
    requires
        forall|i: int| 0 <= i < start.len() ==> rule_for(rules, #[trigger] start[i]) is None,
    ensures
        spec_produce(start, rules) == start,
    decreases start.len(),
{
    if start.len() == 0 {
        assert(spec_produce(start, rules) =~= start);
    } else {
        assert(rule_for(rules, start[0]) is None);
        lemma_constants_unchanged(start.skip(1), rules);
        assert(spec_produce(start, rules) =~= seq![start[0]] + start.skip(1));
        assert(seq![start[0]] + start.skip(1) =~= start);
    }
}

} // verus!
