//! Stochastic production: a symbol may have several candidate replacements,
//! each with a probability.  Probabilities are integer weights out of
//! [`PROB_SCALE`]; a rule set whose weights for one symbol sum to more than
//! the scale is rejected when the set is built, before any production runs.
//! During production one uniform draw below the scale picks, for each symbol
//! with rules, the first candidate whose cumulative weight exceeds the draw;
//! when the weights sum to less than the scale and the draw falls beyond
//! them all, the symbol itself is kept unchanged.

use vstd::prelude::*;

use crate::grammar::push_all;
use crate::randomness::random_below;

verus! {

/// Probabilities are integer weights out of this scale: a weight equal to
/// `PROB_SCALE` stands for probability one.
pub const PROB_SCALE: u32 = 1_000_000;

/// The candidate replacements of one symbol, each with its weight.
pub type Choices = Seq<(u32, Seq<char>)>;

/// A validated stochastic rule table.  Values of this type only come out of
/// [`StochasticRules::new`], which rejects any entry whose weights sum to
/// more than [`PROB_SCALE`]; sampling therefore never runs over a table
/// whose probabilities exceed one.
pub struct StochasticRules {
    entries: Vec<(char, Vec<(u32, Vec<char>)>)>,
}

/// Why a stochastic rule set was rejected at validation.
#[derive(Debug, PartialEq, Eq, Structural, Clone, Copy)]
pub enum RuleSetError {
    /// The named symbol's weights sum to more than `PROB_SCALE`.
    ProbabilityOverflow(char),
}

/// The abstract value of one symbol's executable choice list.
pub open spec fn choices_view(choices: Seq<(u32, Vec<char>)>) -> Choices {
    choices.map_values(|ch: (u32, Vec<char>)| (ch.0, ch.1@))
}

/// The abstract value of an executable entry list.
pub open spec fn entries_view(entries: Seq<(char, Vec<(u32, Vec<char>)>)>) -> Seq<
    (char, Choices),
> {
    entries.map_values(|e: (char, Vec<(u32, Vec<char>)>)| (e.0, choices_view(e.1@)))
}

/// The choice list that `rules` assigns to symbol `c`: the first entry for
/// `c`, or `None` when `c` has no entry.
pub open spec fn stochastic_rule_for(rules: Seq<(char, Choices)>, c: char) -> Option<Choices>
    decreases rules.len(),
{
    if rules.len() == 0 {
        None
    } else if rules[0].0 == c {
        Some(rules[0].1)
    } else {
        stochastic_rule_for(rules.skip(1), c)
    }
}

/// The sum of the first `k` weights of a choice list.
pub open spec fn cum_weight(choices: Choices, k: int) -> int
    decreases k,
{
    if k <= 0 {
        0
    } else {
        cum_weight(choices, k - 1) + choices[k - 1].0
    }
}

/// The sum of all weights of a choice list.
pub open spec fn total_weight(choices: Choices) -> int {
    cum_weight(choices, choices.len() as int)
}

/// The candidate that a draw of `r` picks, searching from position `k` on:
/// the first position whose cumulative weight exceeds `r`, or `None` when
/// the weights are exhausted first.
pub open spec fn choice_from(choices: Choices, r: int, k: int) -> Option<int>
    decreases choices.len() - k,
{
    if k < 0 || k >= choices.len() {
        None
    } else if cum_weight(choices, k + 1) > r {
        Some(k)
    } else {
        choice_from(choices, r, k + 1)
    }
}

/// The candidate that a draw of `r` picks: the first position whose
/// cumulative weight exceeds `r`.
pub open spec fn spec_choice(choices: Choices, r: int) -> Option<int> {
    choice_from(choices, r, 0)
}

/// The blocks that one symbol may contribute to a stochastic production
/// step: any of its candidate replacements; the symbol itself when it has
/// no rule, or as the stated fallback when its weights sum to less than the
/// scale and the draw can fall beyond them all.
pub open spec fn allowed_replacement(
    rules: Seq<(char, Choices)>,
    c: char,
    rep: Seq<char>,
) -> bool {
    match stochastic_rule_for(rules, c) {
        None => rep == seq![c],
        Some(choices) => (exists|k: int|
            0 <= k < choices.len() && rep == (#[trigger] choices[k]).1) || (total_weight(choices)
            < PROB_SCALE as int && rep == seq![c]),
    }
}

/// Whether `output` is a possible one-step stochastic production of
/// `input`: it splits, in order, into one allowed block per input symbol.
pub open spec fn is_derivation(
    rules: Seq<(char, Choices)>,
    input: Seq<char>,
    output: Seq<char>,
) -> bool
    decreases input.len(),
{
    if input.len() == 0 {
        output.len() == 0
    } else {
        exists|rep: Seq<char>|
            allowed_replacement(rules, input[0], rep) && rep.len() <= output.len() && (
            #[trigger] output.take(rep.len() as int)) == rep && is_derivation(
                rules,
                input.skip(1),
                output.skip(rep.len() as int),
            )
    }
}

/// A longer prefix of a choice list never weighs less.
proof fn lemma_cum_weight_monotone(choices: Choices, k1: int, k2: int)
    requires
        0 <= k1 <= k2,
    ensures
        cum_weight(choices, k1) <= cum_weight(choices, k2),
    decreases k2,
{
    if k1 < k2 {
        lemma_cum_weight_monotone(choices, k1, k2 - 1);
    }
}

impl View for StochasticRules {
    type V = Seq<(char, Choices)>;

    closed spec fn view(&self) -> Seq<(char, Choices)> {
        entries_view(self.entries@)
    }
}

/// Whether the weights of this choice list sum to at most `PROB_SCALE`.
fn weights_within(choices: &Vec<(u32, Vec<char>)>) -> (b: bool)
    ensures
        b <==> total_weight(choices_view(choices@)) <= PROB_SCALE as int,
{
    let n = choices.len();
    let mut acc: u64 = 0;
    let mut j: usize = 0;
    while j < n
        invariant
            n == choices@.len(),
            j <= n,
            acc == cum_weight(choices_view(choices@), j as int),
            acc <= PROB_SCALE as u64,
        decreases n - j,
    {
        let w = choices[j].0;
        proof {
            assert(choices_view(choices@)[j as int].0 == w);
            assert(cum_weight(choices_view(choices@), j as int + 1) == acc + w);
        }
        if acc + (w as u64) > PROB_SCALE as u64 {
            proof {
                lemma_cum_weight_monotone(choices_view(choices@), j as int + 1, n as int);
            }
            return false;
        }
        acc = acc + (w as u64);
        j += 1;
    }
    true
}

impl StochasticRules {
    /// All weights of every entry sum to at most the scale: probabilities
    /// never exceed one.
    pub open spec fn wf(&self) -> bool {
        forall|i: int|
            0 <= i < self@.len() ==> total_weight((#[trigger] self@[i]).1) <= PROB_SCALE as int
    }

    /// Validates and builds a stochastic rule table.  The table is accepted
    /// exactly when every symbol's weights sum to at most [`PROB_SCALE`];
    /// otherwise the first offending symbol is reported and no table is
    /// built, so sampling can never reach an overweight rule set.
    pub fn new(entries: Vec<(char, Vec<(u32, Vec<char>)>)>) -> (r: Result<
        StochasticRules,
        RuleSetError,
    >)
        ensures
            r is Ok <==> (forall|i: int|
                0 <= i < entries@.len() ==> total_weight(
                    (#[trigger] entries_view(entries@)[i]).1,
                ) <= PROB_SCALE as int),
            r matches Ok(rules) ==> rules@ == entries_view(entries@) && rules.wf(),
            r matches Err(e) ==> exists|i: int|
                0 <= i < entries@.len() && total_weight((#[trigger] entries_view(entries@)[i]).1)
                    > PROB_SCALE as int && e == RuleSetError::ProbabilityOverflow(entries@[i].0),
    {
        let n = entries.len();
        let mut i: usize = 0;
        while i < n
            invariant
                n == entries@.len(),
                i <= n,
                forall|j: int|
                    0 <= j < i ==> total_weight((#[trigger] entries_view(entries@)[j]).1)
                        <= PROB_SCALE as int,
            decreases n - i,
        {
            proof {
                assert(entries_view(entries@)[i as int].1 == choices_view(entries@[i as int].1@));
            }
            if !weights_within(&entries[i].1) {
                return Err(RuleSetError::ProbabilityOverflow(entries[i].0));
            }
            i += 1;
        }
        Ok(StochasticRules { entries })
    }

    /// Looks the symbol up in the table: the first matching entry's choice
    /// list, or `None` when the symbol has no stochastic rule.
    pub fn get(&self, c: char) -> (r: Option<&Vec<(u32, Vec<char>)>>)
        ensures
            match r {
                Some(v) => stochastic_rule_for(self@, c) == Some(choices_view(v@)),
                None => stochastic_rule_for(self@, c) is None,
            },
    {
        let n = self.entries.len();
        let mut i: usize = 0;
        proof {
            assert(self@.skip(0) =~= self@);
        }
        while i < n
            invariant
                n == self.entries.len(),
                i <= n,
                stochastic_rule_for(self@, c) == stochastic_rule_for(self@.skip(i as int), c),
            decreases n - i,
        {
            proof {
                assert(self@.skip(i as int)[0] == self@[i as int]);
            }
            if self.entries[i].0 == c {
                return Some(&self.entries[i].1);
            }
            proof {
                assert(self@.skip(i as int).skip(1) =~= self@.skip(i as int + 1));
            }
            i += 1;
        }
        proof {
            assert(self@.skip(n as int) =~= Seq::<(char, Choices)>::empty());
        }
        None
    }
}

/// Walks the choice list accumulating weights and returns the position of
/// the first candidate whose cumulative weight exceeds the draw `r`, or
/// `None` when the total weight is at most `r`.
pub fn select(choices: &Vec<(u32, Vec<char>)>, r: u32) -> (idx: Option<usize>)
    ensures
        idx matches Some(k) ==> k < choices@.len() && spec_choice(choices_view(choices@), r as int)
            == Some(k as int),
        idx is None ==> spec_choice(choices_view(choices@), r as int) is None && total_weight(
            choices_view(choices@),
        ) <= r as int,
{
    let n = choices.len();
    let mut k: usize = 0;
    let mut acc: u64 = 0;
    while k < n
        invariant
            n == choices@.len(),
            k <= n,
            acc == cum_weight(choices_view(choices@), k as int),
            acc <= r as u64,
            spec_choice(choices_view(choices@), r as int) == choice_from(
                choices_view(choices@),
                r as int,
                k as int,
            ),
        decreases n - k,
    {
        let w = choices[k].0;
        proof {
            assert(choices_view(choices@)[k as int].0 == w);
            assert(cum_weight(choices_view(choices@), k as int + 1) == acc + w);
        }
        if acc + (w as u64) > r as u64 {
            return Some(k);
        }
        acc = acc + (w as u64);
        k += 1;
    }
    None
}

/// A derivation extends one symbol at a time: appending to the input a
/// symbol and to the output one of its allowed blocks keeps the derivation.
proof fn lemma_derivation_snoc(
    rules: Seq<(char, Choices)>,
    input: Seq<char>,
    output: Seq<char>,
    c: char,
    rep: Seq<char>,
)
    requires
        is_derivation(rules, input, output),
        allowed_replacement(rules, c, rep),
    ensures
        is_derivation(rules, input.push(c), output + rep),
    decreases input.len(),
{
    if input.len() == 0 {
        assert(output + rep =~= rep);
        assert(input.push(c)[0] == c);
        assert(input.push(c).skip(1) =~= Seq::<char>::empty());
        assert((output + rep).take(rep.len() as int) =~= rep);
        assert((output + rep).skip(rep.len() as int) =~= Seq::<char>::empty());
        assert(is_derivation(rules, input.push(c).skip(1), (output + rep).skip(rep.len() as int)));
        assert(is_derivation(rules, input.push(c), output + rep));
    } else {
        let rep0 = choose|rep0: Seq<char>|
            allowed_replacement(rules, input[0], rep0) && rep0.len() <= output.len() && (
            #[trigger] output.take(rep0.len() as int)) == rep0 && is_derivation(
                rules,
                input.skip(1),
                output.skip(rep0.len() as int),
            );
        lemma_derivation_snoc(rules, input.skip(1), output.skip(rep0.len() as int), c, rep);
        assert(input.push(c).skip(1) =~= input.skip(1).push(c));
        assert(input.push(c)[0] == input[0]);
        assert((output + rep).take(rep0.len() as int) =~= rep0);
        assert((output + rep).skip(rep0.len() as int) =~= output.skip(rep0.len() as int) + rep);
        assert(is_derivation(rules, input.push(c), output + rep));
    }
}

/// One stochastic generation step: every symbol of `start` with a rule is
/// replaced by a randomly chosen candidate (or kept, when the draw falls
/// beyond weights summing to less than the scale); every symbol without a
/// rule is kept.  Whatever the draws, the result is a derivation of
/// `start`: it splits, in order, into one allowed block per input symbol.
pub fn produce_stochastic(start: &Vec<char>, rules: &StochasticRules) -> (r: Vec<char>)
    requires
        rules.wf(),
    ensures
        is_derivation(rules@, start@, r@),
{
    let n = start.len();
    let mut s: Vec<char> = Vec::new();
    let mut i: usize = 0;
    proof {
        assert(start@.take(0) =~= Seq::<char>::empty());
    }
    while i < n
        invariant
            n == start@.len(),
            i <= n,
            rules.wf(),
            is_derivation(rules@, start@.take(i as int), s@),
        decreases n - i,
    {
        let c = start[i];
        let ghost pre = s@;
        let ghost prefix = start@.take(i as int);
        match rules.get(c) {
            None => {
                s.push(c);
                proof {
                    assert(allowed_replacement(rules@, c, seq![c]));
                    lemma_derivation_snoc(rules@, prefix, pre, c, seq![c]);
                    assert(s@ =~= pre + seq![c]);
                }
            },
            Some(choices) => {
                let d = random_below(PROB_SCALE);
                match select(choices, d) {
                    Some(k) => {
                        push_all(&mut s, &choices[k].1);
                        proof {
                            let cv = choices_view(choices@);
                            assert(cv[k as int].1 == choices@[k as int].1@);
                            assert(allowed_replacement(rules@, c, cv[k as int].1));
                            lemma_derivation_snoc(rules@, prefix, pre, c, cv[k as int].1);
                        }
                    },
                    None => {
                        s.push(c);
                        proof {
                            let cv = choices_view(choices@);
                            assert(total_weight(cv) <= d as int);
                            assert((d as int) < PROB_SCALE as int);
                            assert(allowed_replacement(rules@, c, seq![c]));
                            lemma_derivation_snoc(rules@, prefix, pre, c, seq![c]);
                            assert(s@ =~= pre + seq![c]);
                        }
                    },
                }
            },
        }
        proof {
            assert(start@.take(i as int).push(c) =~= start@.take(i as int + 1));
        }
        i += 1;
    }
    proof {
        assert(start@.take(n as int) =~= start@);
    }
    s
}

/// A symbol with no stochastic rule contributes exactly itself, so a string
/// of such constants comes out of stochastic production unchanged.
pub proof fn lemma_stochastic_constants_unchanged(
    rules: Seq<(char, Choices)>,
    input: Seq<char>,
    output: Seq<char>,
)
    requires
        is_derivation(rules, input, output),
        forall|i: int| 0 <= i < input.len() ==> stochastic_rule_for(rules, #[trigger] input[i]) is None,
    ensures
        output == input,
    decreases input.len(),
{
    if input.len() == 0 {
        assert(output =~= input);
    } else {
        let rep0 = choose|rep0: Seq<char>|
            allowed_replacement(rules, input[0], rep0) && rep0.len() <= output.len() && (
            #[trigger] output.take(rep0.len() as int)) == rep0 && is_derivation(
                rules,
                input.skip(1),
                output.skip(rep0.len() as int),
            );
        assert(stochastic_rule_for(rules, input[0]) is None);
        assert(rep0 == seq![input[0]]);
        assert(forall|j: int|
            0 <= j < input.skip(1).len() ==> stochastic_rule_for(
                rules,
                #[trigger] input.skip(1)[j],
            ) is None);
        lemma_stochastic_constants_unchanged(rules, input.skip(1), output.skip(1));
        assert(output.len() == input.len());
        assert(output[0] == output.take(1)[0]);
        assert(output[0] == input[0]);
        assert forall|j: int| 0 < j < output.len() implies output[j] == input[j] by {
            assert(output[j] == output.skip(1)[j - 1]);
            assert(input[j] == input.skip(1)[j - 1]);
        }
        assert(output =~= input);
    }
}

} // verus!
