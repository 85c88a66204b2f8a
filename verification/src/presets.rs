//! Named grammar presets: each is a fixed start string, rule table and
//! turn angle, treated as configuration data.  Iterated production lives
//! here too: callers rewrite a preset's start string a chosen number of
//! times to reach a generation depth, the engine itself having no notion
//! of a generation count.

use vstd::prelude::*;

use crate::grammar::{produce, push_all, spec_produce, Rules};
use crate::stochastic::{is_derivation, produce_stochastic, StochasticRules};

verus! {

/// A grammar preset: a start string, a deterministic rule table, and the
/// turn angle (in milli-degrees) that its drawings are meant for.
pub struct LSystem {
    pub start: Vec<char>,
    pub production_rules: Rules,
    pub angle: i64,
}

/// `start` rewritten `n` times under `rules`.
pub open spec fn spec_produce_n(
    start: Seq<char>,
    rules: Seq<(char, Seq<char>)>,
    n: nat,
) -> Seq<char>
    decreases n,
{
    if n == 0 {
        start
    } else {
        spec_produce_n(spec_produce(start, rules), rules, (n - 1) as nat)
    }
}

/// Rewriting once and then `n` times is rewriting `n` times and then once.
proof fn lemma_produce_n_commute(start: Seq<char>, rules: Seq<(char, Seq<char>)>, n: nat)
    ensures
        spec_produce_n(spec_produce(start, rules), rules, n) == spec_produce(
            spec_produce_n(start, rules, n),
            rules,
        ),
    decreases n,
{
    if n > 0 {
        lemma_produce_n_commute(spec_produce(start, rules), rules, (n - 1) as nat);
    }
}

/// `start` rewritten `n` times under `rules`: one generation step after
/// another, the rule table never changing.
pub fn produce_n(start: &Vec<char>, rules: &Rules, n: u32) -> (r: Vec<char>)
    ensures
        r@ == spec_produce_n(start@, rules@, n as nat),
{
    let mut s: Vec<char> = Vec::new();
    push_all(&mut s, start);
    proof {
        assert(Seq::<char>::empty() + start@ =~= start@);
    }
    let mut k: u32 = 0;
    while k < n
        invariant
            k <= n,
            s@ == spec_produce_n(start@, rules@, k as nat),
        decreases n - k,
    {
        proof {
            lemma_produce_n_commute(start@, rules@, k as nat);
        }
        s = produce(&s, rules);
        k += 1;
    }
    s
}

/// An incremental growth run: the current symbol string and how many
/// generations it has grown.  Growth presets re-apply stochastic
/// production each animation tick and start over once a depth limit is
/// reached.
pub struct ProductionRun {
    pub path: Vec<char>,
    pub iteration: u32,
}

impl ProductionRun {
    /// A fresh run standing at the start string, zero generations in.
    pub fn new(start: &Vec<char>) -> (r: ProductionRun)
        ensures
            r.path@ == start@,
            r.iteration == 0,
    {
        let mut path: Vec<char> = Vec::new();
        push_all(&mut path, start);
        proof {
            assert(Seq::<char>::empty() + start@ =~= start@);
        }
        ProductionRun { path, iteration: 0 }
    }

    /// One animation tick.  At the depth limit the run starts over: one
    /// stochastic generation grown from `start` again; below it the run
    /// keeps growing, one stochastic generation on the current string.
    pub fn tick(&mut self, start: &Vec<char>, rules: &StochasticRules, limit: u32)
        requires
            rules.wf(),
            old(self).iteration <= limit,
        ensures
            old(self).iteration == limit ==> final(self).iteration == 0 && is_derivation(
                rules@,
                start@,
                final(self).path@,
            ),
            old(self).iteration < limit ==> final(self).iteration == old(self).iteration + 1
                && is_derivation(rules@, old(self).path@, final(self).path@),
            final(self).iteration <= limit,
    {
        if self.iteration == limit {
            self.iteration = 0;
            self.path = produce_stochastic(start, rules);
        } else {
            self.iteration = self.iteration + 1;
            self.path = produce_stochastic(&self.path, rules);
        }
    }
}

/// The fractal-plant preset: `X` with `X -> F+[[X]-X]-F[-FX]+X` and
/// `F -> FF`, drawn with 25-degree turns.
pub fn fractal_plant() -> (l: LSystem)
    ensures
        l.start@ == seq!['X'],
        l.production_rules@ == seq![
            (
                'X',
                seq![
                    'F',
                    '+',
                    '[',
                    '[',
                    'X',
                    ']',
                    '-',
                    'X',
                    ']',
                    '-',
                    'F',
                    '[',
                    '-',
                    'F',
                    'X',
                    ']',
                    '+',
                    'X',
                ],
            ),
            ('F', seq!['F', 'F']),
        ],
        l.angle == 25_000,
{
    let mut production_rules = Rules::new();
    production_rules.insert(
        'X',
        vec![
            'F',
            '+',
            '[',
            '[',
            'X',
            ']',
            '-',
            'X',
            ']',
            '-',
            'F',
            '[',
            '-',
            'F',
            'X',
            ']',
            '+',
            'X',
        ],
    );
    production_rules.insert('F', vec!['F', 'F']);
    let l = LSystem { start: vec!['X'], production_rules, angle: 25_000 };
    proof {
        assert(l.production_rules@ =~= seq![
            (
                'X',
                seq![
                    'F',
                    '+',
                    '[',
                    '[',
                    'X',
                    ']',
                    '-',
                    'X',
                    ']',
                    '-',
                    'F',
                    '[',
                    '-',
                    'F',
                    'X',
                    ']',
                    '+',
                    'X',
                ],
            ),
            ('F', seq!['F', 'F']),
        ]);
    }
    l
}

/// The fractal-tree preset: `0` with `0 -> 1[0]0` and `1 -> 11`, drawn
/// with 25-degree turns.
pub fn fractal_tree() -> (l: LSystem)
    ensures
        l.start@ == seq!['0'],
        l.production_rules@ == seq![
            ('0', seq!['1', '[', '0', ']', '0']),
            ('1', seq!['1', '1']),
        ],
        l.angle == 25_000,
{
    let mut production_rules = Rules::new();
    production_rules.insert('0', vec!['1', '[', '0', ']', '0']);
    production_rules.insert('1', vec!['1', '1']);
    let l = LSystem { start: vec!['0'], production_rules, angle: 25_000 };
    proof {
        assert(l.production_rules@ =~= seq![
            ('0', seq!['1', '[', '0', ']', '0']),
            ('1', seq!['1', '1']),
        ]);
    }
    l
}

/// The square-curve preset: `F+XF+F+XF` with
/// `X -> XF-F+F-XF+F+XF-F+F-X`, drawn with 90-degree turns.
pub fn square() -> (l: LSystem)
    ensures
        l.start@ == seq!['F', '+', 'X', 'F', '+', 'F', '+', 'X', 'F'],
        l.production_rules@ == seq![
            (
                'X',
                seq![
                    'X',
                    'F',
                    '-',
                    'F',
                    '+',
                    'F',
                    '-',
                    'X',
                    'F',
                    '+',
                    'F',
                    '+',
                    'X',
                    'F',
                    '-',
                    'F',
                    '+',
                    'F',
                    '-',
                    'X',
                ],
            ),
        ],
        l.angle == 90_000,
{
    let mut production_rules = Rules::new();
    production_rules.insert(
        'X',
        vec![
            'X',
            'F',
            '-',
            'F',
            '+',
            'F',
            '-',
            'X',
            'F',
            '+',
            'F',
            '+',
            'X',
            'F',
            '-',
            'F',
            '+',
            'F',
            '-',
            'X',
        ],
    );
    let l = LSystem {
        start: vec!['F', '+', 'X', 'F', '+', 'F', '+', 'X', 'F'],
        production_rules,
        angle: 90_000,
    };
    proof {
        assert(l.production_rules@ =~= seq![
            (
                'X',
                seq![
                    'X',
                    'F',
                    '-',
                    'F',
                    '+',
                    'F',
                    '-',
                    'X',
                    'F',
                    '+',
                    'F',
                    '+',
                    'X',
                    'F',
                    '-',
                    'F',
                    '+',
                    'F',
                    '-',
                    'X',
                ],
            ),
        ]);
    }
    l
}

/// The Hilbert-curve preset: `X` with `X -> -YF+XFX+FY-` and
/// `Y -> +XF-YFY-FX+`, drawn with 90-degree turns.
pub fn hilbert() -> (l: LSystem)
    ensures
        l.start@ == seq!['X'],
        l.production_rules@ == seq![
            ('X', seq!['-', 'Y', 'F', '+', 'X', 'F', 'X', '+', 'F', 'Y', '-']),
            ('Y', seq!['+', 'X', 'F', '-', 'Y', 'F', 'Y', '-', 'F', 'X', '+']),
        ],
        l.angle == 90_000,
{
    let mut production_rules = Rules::new();
    production_rules.insert('X', vec!['-', 'Y', 'F', '+', 'X', 'F', 'X', '+', 'F', 'Y', '-']);
    production_rules.insert('Y', vec!['+', 'X', 'F', '-', 'Y', 'F', 'Y', '-', 'F', 'X', '+']);
    let l = LSystem { start: vec!['X'], production_rules, angle: 90_000 };
    proof {
        assert(l.production_rules@ =~= seq![
            ('X', seq!['-', 'Y', 'F', '+', 'X', 'F', 'X', '+', 'F', 'Y', '-']),
            ('Y', seq!['+', 'X', 'F', '-', 'Y', 'F', 'Y', '-', 'F', 'X', '+']),
        ]);
    }
    l
}

/// The pentaplexity preset: `F++F++F++F++F` with
/// `F -> F++F++F|F-F++F`, drawn with 36-degree turns.
pub fn pentaplexity() -> (l: LSystem)
    ensures
        l.start@ == seq!['F', '+', '+', 'F', '+', '+', 'F', '+', '+', 'F', '+', '+', 'F'],
        l.production_rules@ == seq![
            (
                'F',
                seq![
                    'F',
                    '+',
                    '+',
                    'F',
                    '+',
                    '+',
                    'F',
                    '|',
                    'F',
                    '-',
                    'F',
                    '+',
                    '+',
                    'F',
                ],
            ),
        ],
        l.angle == 36_000,
{
    let mut production_rules = Rules::new();
    production_rules.insert(
        'F',
        vec!['F', '+', '+', 'F', '+', '+', 'F', '|', 'F', '-', 'F', '+', '+', 'F'],
    );
    let l = LSystem {
        start: vec!['F', '+', '+', 'F', '+', '+', 'F', '+', '+', 'F', '+', '+', 'F'],
        production_rules,
        angle: 36_000,
    };
    proof {
        assert(l.production_rules@ =~= seq![
            (
                'F',
                seq![
                    'F',
                    '+',
                    '+',
                    'F',
                    '+',
                    '+',
                    'F',
                    '|',
                    'F',
                    '-',
                    'F',
                    '+',
                    '+',
                    'F',
                ],
            ),
        ]);
    }
    l
}

/// The hexagonal-Gosper preset: `XF` with `X -> X+YF++YF-FX--FXFX-YF+`
/// and `Y -> -FX+YFYF++YF+FX--FX-Y`, drawn with 60-degree turns.
pub fn hexagonal_gosper() -> (l: LSystem)
    ensures
        l.start@ == seq!['X', 'F'],
        l.production_rules@ == seq![
            (
                'X',
                seq![
                    'X',
                    '+',
                    'Y',
                    'F',
                    '+',
                    '+',
                    'Y',
                    'F',
                    '-',
                    'F',
                    'X',
                    '-',
                    '-',
                    'F',
                    'X',
                    'F',
                    'X',
                    '-',
                    'Y',
                    'F',
                    '+',
                ],
            ),
            (
                'Y',
                seq![
                    '-',
                    'F',
                    'X',
                    '+',
                    'Y',
                    'F',
                    'Y',
                    'F',
                    '+',
                    '+',
                    'Y',
                    'F',
                    '+',
                    'F',
                    'X',
                    '-',
                    '-',
                    'F',
                    'X',
                    '-',
                    'Y',
                ],
            ),
        ],
        l.angle == 60_000,
{
    let mut production_rules = Rules::new();
    production_rules.insert(
        'X',
        vec![
            'X',
            '+',
            'Y',
            'F',
            '+',
            '+',
            'Y',
            'F',
            '-',
            'F',
            'X',
            '-',
            '-',
            'F',
            'X',
            'F',
            'X',
            '-',
            'Y',
            'F',
            '+',
        ],
    );
    production_rules.insert(
        'Y',
        vec![
            '-',
            'F',
            'X',
            '+',
            'Y',
            'F',
            'Y',
            'F',
            '+',
            '+',
            'Y',
            'F',
            '+',
            'F',
            'X',
            '-',
            '-',
            'F',
            'X',
            '-',
            'Y',
        ],
    );
    let l = LSystem { start: vec!['X', 'F'], production_rules, angle: 60_000 };
    proof {
        assert(l.production_rules@ =~= seq![
            (
                'X',
                seq![
                    'X',
                    '+',
                    'Y',
                    'F',
                    '+',
                    '+',
                    'Y',
                    'F',
                    '-',
                    'F',
                    'X',
                    '-',
                    '-',
                    'F',
                    'X',
                    'F',
                    'X',
                    '-',
                    'Y',
                    'F',
                    '+',
                ],
            ),
            (
                'Y',
                seq![
                    '-',
                    'F',
                    'X',
                    '+',
                    'Y',
                    'F',
                    'Y',
                    'F',
                    '+',
                    '+',
                    'Y',
                    'F',
                    '+',
                    'F',
                    'X',
                    '-',
                    '-',
                    'F',
                    'X',
                    '-',
                    'Y',
                ],
            ),
        ]);
    }
    l
}

/// The three-dimensional tree preset: `FFFA` with
/// `A -> [^FFFA]////[^FFFA]////[^FFFA]`, drawn with 60-degree turns.
pub fn tree_3d() -> (l: LSystem)
    ensures
        l.start@ == seq!['F', 'F', 'F', 'A'],
        l.production_rules@ == seq![
            (
                'A',
                seq![
                    '[',
                    '^',
                    'F',
                    'F',
                    'F',
                    'A',
                    ']',
                    '/',
                    '/',
                    '/',
                    '/',
                    '[',
                    '^',
                    'F',
                    'F',
                    'F',
                    'A',
                    ']',
                    '/',
                    '/',
                    '/',
                    '/',
                    '[',
                    '^',
                    'F',
                    'F',
                    'F',
                    'A',
                    ']',
                ],
            ),
        ],
        l.angle == 60_000,
{
    let mut production_rules = Rules::new();
    production_rules.insert(
        'A',
        vec![
            '[',
            '^',
            'F',
            'F',
            'F',
            'A',
            ']',
            '/',
            '/',
            '/',
            '/',
            '[',
            '^',
            'F',
            'F',
            'F',
            'A',
            ']',
            '/',
            '/',
            '/',
            '/',
            '[',
            '^',
            'F',
            'F',
            'F',
            'A',
            ']',
        ],
    );
    let l = LSystem { start: vec!['F', 'F', 'F', 'A'], production_rules, angle: 60_000 };
    proof {
        assert(l.production_rules@ =~= seq![
            (
                'A',
                seq![
                    '[',
                    '^',
                    'F',
                    'F',
                    'F',
                    'A',
                    ']',
                    '/',
                    '/',
                    '/',
                    '/',
                    '[',
                    '^',
                    'F',
                    'F',
                    'F',
                    'A',
                    ']',
                    '/',
                    '/',
                    '/',
                    '/',
                    '[',
                    '^',
                    'F',
                    'F',
                    'F',
                    'A',
                    ']',
                ],
            ),
        ]);
    }
    l
}

} // verus!
