//! Static simplification of decision trees, and the cycle detector that
//! caches a genome's whole, eventually periodic stream of decisions.

use vstd::prelude::*;

use crate::ast::{Action, BinOp, Condition, Value};
use crate::dna::DNA;
use crate::parsing::{decode, decode_spec, Decision, Failure, Thought};
use crate::MAX_THINKING_STEPS;

verus! {

/// Whether `v` lies between `a` and `b`, in either order, ends included.
pub open spec fn in_range(v: int, a: int, b: int) -> bool {
    (if a <= b { a } else { b }) <= v && v <= (if a <= b { b } else { a })
}

/// Whether `l op r` holds.
pub open spec fn binop_holds(op: BinOp, l: int, r: int) -> bool {
    match op {
        BinOp::LT => l < r,
        BinOp::GT => l > r,
        BinOp::EQ => l == r,
        BinOp::NE => l != r,
    }
}

/// First pass on a condition: fold tests on literals and tests whose two
/// branches are the same action.
pub open spec fn fold_condition(cond: Condition) -> Condition
    decreases cond,
{
    match cond {
        Condition::Always(act) => Condition::Always(fold_action(act)),
        Condition::RangeCompare { value, bound_a, bound_b, affirmed, denied } => match (value, bound_a, bound_b) {
            (Value::Literal(v), Value::Literal(a), Value::Literal(b)) => if in_range(v as int, a as int, b as int) {
                Condition::Always(fold_action(affirmed))
            } else {
                Condition::Always(fold_action(denied))
            },
            _ => Condition::RangeCompare {
                value,
                bound_a,
                bound_b,
                affirmed: fold_action(affirmed),
                denied: fold_action(denied),
            },
        },
        Condition::BinCompare { operation, lhs, rhs, affirmed, denied } => {
            let y = fold_action(affirmed);
            let n = fold_action(denied);
            if y == n {
                Condition::Always(y)
            } else {
                match (lhs, rhs) {
                    (Value::Literal(l), Value::Literal(r)) => if binop_holds(operation, l as int, r as int) {
                        Condition::Always(y)
                    } else {
                        Condition::Always(n)
                    },
                    _ => Condition::BinCompare { operation, lhs, rhs, affirmed: y, denied: n },
                }
            }
        },
        Condition::ActionCompare { actor_type, action, affirmed, denied } => {
            let y = fold_action(affirmed);
            let n = fold_action(denied);
            if y == n {
                Condition::Always(y)
            } else {
                Condition::ActionCompare { actor_type, action: fold_action(action), affirmed: y, denied: n }
            }
        },
    }
}

/// First pass on an action: a sub-condition that always takes one action
/// becomes that action; other sub-conditions are folded.
pub open spec fn fold_action(act: Action) -> Action
    decreases act,
{
    match act {
        Action::Subcondition(b) => match *b {
            Condition::Always(inner) => fold_action(inner),
            cond => Action::Subcondition(Box::new(fold_condition(cond))),
        },
        other => other,
    }
}

/// Second pass on a condition: an always-taken sub-condition is replaced by
/// the sub-condition itself.
pub open spec fn unwrap_condition(cond: Condition) -> Condition
    decreases cond,
{
    match cond {
        Condition::Always(Action::Subcondition(b)) => unwrap_condition(*b),
        Condition::Always(act) => Condition::Always(unwrap_action(act)),
        Condition::RangeCompare { value, bound_a, bound_b, affirmed, denied } => Condition::RangeCompare {
            value,
            bound_a,
            bound_b,
            affirmed: unwrap_action(affirmed),
            denied: unwrap_action(denied),
        },
        Condition::BinCompare { operation, lhs, rhs, affirmed, denied } => Condition::BinCompare {
            operation,
            lhs,
            rhs,
            affirmed: unwrap_action(affirmed),
            denied: unwrap_action(denied),
        },
        Condition::ActionCompare { actor_type, action, affirmed, denied } => Condition::ActionCompare {
            actor_type,
            action: unwrap_action(action),
            affirmed: unwrap_action(affirmed),
            denied: unwrap_action(denied),
        },
    }
}

/// Second pass on an action.
pub open spec fn unwrap_action(act: Action) -> Action
    decreases act,
{
    match act {
        Action::Subcondition(b) => Action::Subcondition(Box::new(unwrap_condition(*b))),
        other => other,
    }
}

/// The simplified tree: both passes, the folding one first.
#[verifier::opaque]
pub open spec fn simplify_spec(cond: Condition) -> Condition {
    unwrap_condition(fold_condition(cond))
}

/// Simplifies a tree: folds statically decided tests and removes redundant
/// wrapping. The result evaluates as the tree does.
pub fn simplify(cond: Condition) -> (r: Condition)
    ensures
        r == simplify_spec(cond),
{
    proof {
        reveal(simplify_spec);
    }
    let stage_1_cond = eval_static_conditionals(cond);
    eval_redundant_conditions(stage_1_cond)
}

fn eval_static_conditionals(cond: Condition) -> (r: Condition)
    ensures
        r == fold_condition(cond),
    decreases cond,
{
    match cond {
        Condition::Always(act) => Condition::Always(esc_action(act)),
        Condition::RangeCompare { value, bound_a, bound_b, affirmed, denied } => match (value, bound_a, bound_b) {
            (Value::Literal(v), Value::Literal(a), Value::Literal(b)) => {
                let lo = if a <= b { a } else { b };
                let hi = if a <= b { b } else { a };
                if lo <= v && v <= hi {
                    Condition::Always(esc_action(affirmed))
                } else {
                    Condition::Always(esc_action(denied))
                }
            },
            _ => Condition::RangeCompare {
                value,
                bound_a,
                bound_b,
                affirmed: esc_action(affirmed),
                denied: esc_action(denied),
            },
        },
        Condition::BinCompare { operation, lhs, rhs, affirmed, denied } => {
            let y = esc_action(affirmed);
            let n = esc_action(denied);
            if y.same_as(&n) {
                Condition::Always(y)
            } else {
                match (lhs, rhs) {
                    (Value::Literal(l), Value::Literal(r)) => {
                        let holds = match operation {
                            BinOp::LT => l < r,
                            BinOp::GT => l > r,
                            BinOp::EQ => l == r,
                            BinOp::NE => l != r,
                        };
                        if holds {
                            Condition::Always(y)
                        } else {
                            Condition::Always(n)
                        }
                    },
                    _ => Condition::BinCompare { operation, lhs, rhs, affirmed: y, denied: n },
                }
            }
        },
        Condition::ActionCompare { actor_type, action, affirmed, denied } => {
            let y = esc_action(affirmed);
            let n = esc_action(denied);
            if y.same_as(&n) {
                Condition::Always(y)
            } else {
                Condition::ActionCompare { actor_type, action: esc_action(action), affirmed: y, denied: n }
            }
        },
    }
}

fn esc_action(act: Action) -> (r: Action)
    ensures
        r == fold_action(act),
    decreases act,
{
    match act {
        Action::Subcondition(b) => match *b {
            Condition::Always(inner) => esc_action(inner),
            cond => Action::Subcondition(Box::new(eval_static_conditionals(cond))),
        },
        other => other,
    }
}

fn eval_redundant_conditions(cond: Condition) -> (r: Condition)
    ensures
        r == unwrap_condition(cond),
    decreases cond,
{
    match cond {
        Condition::Always(Action::Subcondition(b)) => eval_redundant_conditions(*b),
        Condition::Always(act) => Condition::Always(erc_action(act)),
        Condition::RangeCompare { value, bound_a, bound_b, affirmed, denied } => Condition::RangeCompare {
            value,
            bound_a,
            bound_b,
            affirmed: erc_action(affirmed),
            denied: erc_action(denied),
        },
        Condition::BinCompare { operation, lhs, rhs, affirmed, denied } => Condition::BinCompare {
            operation,
            lhs,
            rhs,
            affirmed: erc_action(affirmed),
            denied: erc_action(denied),
        },
        Condition::ActionCompare { actor_type, action, affirmed, denied } => Condition::ActionCompare {
            actor_type,
            action: erc_action(action),
            affirmed: erc_action(affirmed),
            denied: erc_action(denied),
        },
    }
}

fn erc_action(act: Action) -> (r: Action)
    ensures
        r == unwrap_action(act),
    decreases act,
{
    match act {
        Action::Subcondition(b) => Action::Subcondition(Box::new(eval_redundant_conditions(*b))),
        other => other,
    }
}

/// Offset `n` of a genome's decode stream: decoding starts at 0, and each
/// decode starts where the previous one stopped, modulo the genome length.
pub open spec fn orbit(c: Seq<i8>, n: nat) -> nat
    decreases n,
{
    if n == 0 {
        0
    } else {
        (decode_spec(c, orbit(c, (n - 1) as nat)).offset_spec() as int % c.len() as int) as nat
    }
}

/// The `n`-th decode of a genome's stream.
pub open spec fn stream_thought(c: Seq<i8>, n: nat) -> Thought {
    decode_spec(c, orbit(c, n))
}

/// Whether the first `n` offsets of the stream are all different: the
/// repeat start and the period that end the cache there are the least.
pub open spec fn offsets_distinct(c: Seq<i8>, n: nat) -> bool {
    forall|a: nat, b: nat| a < b < n ==> #[trigger] orbit(c, a) != #[trigger] orbit(c, b)
}

/// A decision with its tree simplified.
pub open spec fn simplified(d: Decision) -> Decision {
    Decision { tree: simplify_spec(d.tree), offset: d.offset, icount: d.icount, skipped: d.skipped }
}

/// A creature's cached thought process: the decisions of its decode stream
/// up to where the stream repeats, the index where the repeat starts, and a
/// cursor to the next decision.
#[derive(Debug)]
pub struct ThoughtCycle {
    pub thoughts: Vec<Decision>,
    pub cycle_offset: usize,
    pub cursor: usize,
}

impl ThoughtCycle {
    pub open spec fn wf(&self) -> bool {
        &&& self.thoughts@.len() > 0
        &&& self.cycle_offset < self.thoughts@.len()
        &&& self.cursor < self.thoughts@.len()
    }

    /// Where the cursor goes after position `i`: on, or back to the start
    /// of the repeat after the last decision.
    pub open spec fn advance(&self, i: nat) -> nat {
        if i + 1 < self.thoughts@.len() {
            i + 1
        } else {
            self.cycle_offset as nat
        }
    }

    /// The index that the `n`-th decision of the stream is cached at.
    pub open spec fn replay_index(&self, n: nat) -> nat {
        let len = self.thoughts@.len();
        let mu = self.cycle_offset as nat;
        if n < len {
            n
        } else {
            (mu + (n - mu) % (len - mu) as int) as nat
        }
    }

    /// Whether the cycle caches the decode stream of codons `c`: entry `j`
    /// is the simplified `j`-th decision, and the stream's offsets repeat
    /// after the last entry from the start of the repeat on.
    pub open spec fn caches(&self, c: Seq<i8>) -> bool {
        let len = self.thoughts@.len();
        let mu = self.cycle_offset as nat;
        &&& self.wf()
        &&& orbit(c, len) == orbit(c, mu)
        &&& offsets_distinct(c, len)
        &&& forall|j: nat| j < len ==> (#[trigger] stream_thought(c, j)) is Dec && self.thoughts@[j as int]
            == simplified(stream_thought(c, j)->Dec_0)
    }

    /// The feeder's one decision: always wait, at a cost above the budget.
    pub open spec fn feeder_thoughts() -> Seq<Decision> {
        seq![
            Decision {
                tree: Condition::Always(Action::Wait),
                offset: 0,
                icount: 0,
                skipped: (MAX_THINKING_STEPS + 1) as usize,
            },
        ]
    }

    /// The feeder's cycle: its one fixed decision, forever.
    pub fn feeder() -> (r: ThoughtCycle)
        ensures
            r.wf(),
            r.thoughts@ == ThoughtCycle::feeder_thoughts(),
            r.cycle_offset == 0,
            r.cursor == 0,
    {
        let d = Decision {
            tree: Condition::Always(Action::Wait),
            offset: 0,
            icount: 0,
            skipped: MAX_THINKING_STEPS + 1,
        };
        let r = ThoughtCycle { thoughts: vec![d], cycle_offset: 0, cursor: 0 };
        assert(r.thoughts@ =~= seq![
            Decision {
                tree: Condition::Always(Action::Wait),
                offset: 0,
                icount: 0,
                skipped: (MAX_THINKING_STEPS + 1) as usize,
            },
        ]);
        r
    }

    /// The next cached decision; the cursor moves on, wrapping to the start
    /// of the repeat.
    pub fn next(&mut self) -> (r: Decision)
        requires
            old(self).wf(),
        ensures
            final(self).wf(),
            r == old(self).thoughts@[old(self).cursor as int],
            final(self).thoughts@ == old(self).thoughts@,
            final(self).cycle_offset == old(self).cycle_offset,
            final(self).cursor == old(self).advance(old(self).cursor as nat),
    {
        let r = self.thoughts[self.cursor].duplicate();
        if self.cursor < self.thoughts.len() - 1 {
            self.cursor = self.cursor + 1;
        } else {
            self.cursor = self.cycle_offset;
        }
        r
    }

    /// Number of cached decisions.
    pub fn len(&self) -> (r: usize)
        ensures
            r == self.thoughts@.len(),
    {
        self.thoughts.len()
    }
}

/// From one repeated offset, the stream repeats with the same period.
proof fn lemma_orbit_shift(c: Seq<i8>, a: nat, d: nat, k: nat)
    requires
        orbit(c, a) == orbit(c, a + d),
    ensures
        orbit(c, a + k) == orbit(c, a + d + k),
    decreases k,
{
    if k > 0 {
        lemma_orbit_shift(c, a, d, (k - 1) as nat);
        assert(orbit(c, a + k) == (decode_spec(c, orbit(c, (a + k - 1) as nat)).offset_spec() as int
            % c.len() as int) as nat);
        assert(orbit(c, a + d + k) == (decode_spec(c, orbit(c, (a + d + k - 1) as nat)).offset_spec() as int
            % c.len() as int) as nat);
    }
}

/// From one repeated offset, any whole number of periods later the stream
/// is back at the same offset.
proof fn lemma_orbit_periods(c: Seq<i8>, a: nat, d: nat, t: nat, j: nat)
    requires
        orbit(c, a) == orbit(c, a + d),
        t >= a,
    ensures
        orbit(c, t + j * d) == orbit(c, t),
    decreases j,
{
    if j > 0 {
        lemma_orbit_periods(c, a, d, t, (j - 1) as nat);
        let s = (t + ((j - 1) as nat) * d) as nat;
        assert(orbit(c, s) == orbit(c, t));
        assert(s >= a) by (nonlinear_arith)
            requires s == t + (j - 1) * d, t >= a, j >= 1;
        lemma_orbit_shift(c, a, d, (s - a) as nat);
        assert(a + (s - a) == s);
        assert(orbit(c, s) == orbit(c, s + d));
        assert(t + j * d == s + d) by (nonlinear_arith)
            requires s == t + (j - 1) * d;
        assert(orbit(c, t + j * d) == orbit(c, s + d));
    } else {
        assert(t + j * d == t) by (nonlinear_arith)
            requires j == 0;
    }
}

/// Offsets stay inside the genome.
proof fn lemma_orbit_bounded(c: Seq<i8>, n: nat)
    requires
        c.len() > 0,
    ensures
        orbit(c, n) < c.len(),
{
    if n > 0 {
        let x = decode_spec(c, orbit(c, (n - 1) as nat)).offset_spec() as int;
        let m = c.len() as int;
        assert(x % m >= 0 && x % m < m) by (nonlinear_arith)
            requires m > 0;
    }
}

/// Among the first `len + 1` offsets, two are equal.
proof fn lemma_orbit_repeats(c: Seq<i8>) -> (r: (nat, nat))
    requires
        c.len() > 0,
    ensures
        r.0 < r.1 <= c.len(),
        orbit(c, r.0) == orbit(c, r.1),
{
    let len = c.len();
    let s = Seq::new(len + 1, |i: int| orbit(c, i as nat) as int);
    if s.no_duplicates() {
        s.unique_seq_to_set();
        assert forall|x: int| s.to_set().contains(x) implies vstd::set_lib::set_int_range(0, len as int).contains(x) by {
            let i = choose|i: int| 0 <= i < s.len() && s[i] == x;
            lemma_orbit_bounded(c, i as nat);
        }
        vstd::set_lib::lemma_int_range(0, len as int);
        vstd::set_lib::lemma_len_subset(s.to_set(), vstd::set_lib::set_int_range(0, len as int));
        assert(false);
    }
    let (a, b) = choose|a: int, b: int| 0 <= a < s.len() && 0 <= b < s.len() && a != b && s[a] == s[b];
    if a < b {
        (a as nat, b as nat)
    } else {
        (b as nat, a as nat)
    }
}

/// Floyd's result is the least: when `mu` is the first offset index that
/// meets its copy `k` steps on (`k` a meeting point of the two runners),
/// and `lam` the first return to it, the offsets before `mu + lam` are all
/// different.
proof fn lemma_least_cycle(c: Seq<i8>, k: nat, mu: nat, lam: nat)
    requires
        k >= 1,
        lam >= 1,
        orbit(c, k) == orbit(c, 2 * k),
        forall|t: nat| t < mu ==> #[trigger] orbit(c, t) != orbit(c, t + k),
        orbit(c, mu) == orbit(c, mu + lam),
        forall|l: nat| 1 <= l < lam ==> #[trigger] orbit(c, mu + l) != orbit(c, mu),
    ensures
        offsets_distinct(c, mu + lam),
{
    assert forall|a: nat, b: nat| a < b < mu + lam implies #[trigger] orbit(c, a) != #[trigger] orbit(c, b) by {
        if orbit(c, a) == orbit(c, b) {
            let d = (b - a) as nat;
            assert(orbit(c, a) == orbit(c, a + d));
            if a < mu {
                if k <= a {
                    lemma_orbit_shift(c, k, k, (a - k) as nat);
                    assert(orbit(c, a) == orbit(c, a + k));
                } else {
                    let t = (a + k * d) as nat;
                    assert(t >= k) by (nonlinear_arith)
                        requires t == a + k * d, d >= 1;
                    lemma_orbit_periods(c, a, d, a, k);
                    lemma_orbit_shift(c, k, k, (t - k) as nat);
                    assert(orbit(c, t) == orbit(c, t + k));
                    lemma_orbit_periods(c, a, d, a + k, k);
                    assert(a + k + k * d == t + k);
                    assert(orbit(c, a) == orbit(c, a + k));
                }
                assert(orbit(c, a) != orbit(c, a + k));
            } else {
                let t = (mu + a * lam) as nat;
                assert(t >= a) by (nonlinear_arith)
                    requires t == mu + a * lam, lam >= 1, a >= mu;
                lemma_orbit_periods(c, mu, lam, mu, a);
                lemma_orbit_periods(c, mu, lam, mu + d, a);
                assert(mu + d + a * lam == t + d);
                lemma_orbit_periods(c, a, d, t, 1);
                assert(t + 1 * d == t + d);
                assert(orbit(c, mu + d) == orbit(c, mu));
                assert(1 <= d < lam);
            }
        }
    }
}

/// One step of the decode stream: the offset where a decode from `off` stops.
fn step(dna: &DNA, off: usize) -> (r: usize)
    requires
        dna.wf(),
        dna.0@.len() > 0,
        off < dna.codons().len(),
    ensures
        r == (decode_spec(dna.codons(), off as nat).offset_spec() as int % dna.codons().len() as int),
        r < dna.codons().len(),
{
    let t = decode(dna, off);
    proof {
        vstd::arithmetic::div_mod::lemma_small_mod(off as nat, dna.codons().len());
        vstd::arithmetic::div_mod::lemma_small_mod(t.offset_spec() as nat, dna.codons().len());
    }
    t.offset()
}

/// Computes a genome's thought cycle: Floyd's tortoise and hare finds where
/// the decode stream's offsets start repeating (`mu`) and the period
/// (`lambda`); the first `mu + lambda` decisions are decoded again,
/// simplified and cached. An invalid genome fails with `DNAEmpty`; a failed
/// decode among them fails with its own reason.
pub fn cycle_detect(dna: &DNA) -> (r: Result<ThoughtCycle, Failure>)
    requires
        dna.wf(),
    ensures
        !dna.valid_spec() ==> r == Err::<ThoughtCycle, Failure>(Failure::DNAEmpty),
        r is Ok ==> r->Ok_0.caches(dna.codons()) && r->Ok_0.cursor == 0,
        r is Err && dna.valid_spec() ==> exists|j: nat| (#[trigger] stream_thought(dna.codons(), j)) is Ind
            && stream_thought(dna.codons(), j)->Ind_0.reason == r->Err_0 && forall|i: nat| i < j
            ==> (#[trigger] stream_thought(dna.codons(), i)) is Dec,
{
    if !dna.valid() {
        return Err(Failure::DNAEmpty);
    }
    let ghost c = dna.codons();
    let len = dna.len();
    assert(2 * c.len() <= usize::MAX);
    let ghost (a, b) = lemma_orbit_repeats(c);
    let ghost d = (b - a) as nat;
    let ghost q = (a / d + 1) as nat;
    let ghost meet = (d * q) as nat;
    proof {
        assert(meet > a && meet <= b) by (nonlinear_arith)
            requires meet == d * q, q == a / d + 1, d == b - a, d > 0, a < b;
        lemma_orbit_periods(c, a, d, meet, q);
        assert(meet + q * d == 2 * meet) by (nonlinear_arith)
            requires meet == d * q;
    }
    // Phase one: the tortoise at offset k, the hare at offset 2k.
    let mut k: usize = 1;
    let mut tortoise = step(dna, 0);
    let mut hare = step(dna, tortoise);
    proof {
        assert(orbit(c, 0) == 0);
        assert(orbit(c, 1) == tortoise);
        assert(orbit(c, 2) == hare);
    }
    while tortoise != hare
        invariant
            dna.wf(),
            c == dna.codons(),
            len == c.len(),
            c.len() > 0,
            1 <= k <= meet,
            meet <= c.len(),
            2 * c.len() <= usize::MAX,
            orbit(c, meet) == orbit(c, 2 * meet),
            tortoise == orbit(c, k as nat),
            hare == orbit(c, 2 * k as nat),
        decreases meet - k,
    {
        proof {
            lemma_orbit_bounded(c, k as nat);
            lemma_orbit_bounded(c, (2 * k + 1) as nat);
        }
        tortoise = step(dna, tortoise);
        let h1 = step(dna, hare);
        hare = step(dna, h1);
        k = k + 1;
        proof {
            assert(orbit(c, (2 * k - 1) as nat) == h1);
        }
    }
    // Phase two: the tortoise from the start, the hare k ahead.
    let mut mu: usize = 0;
    tortoise = 0;
    while tortoise != hare
        invariant
            dna.wf(),
            c == dna.codons(),
            len == c.len(),
            c.len() > 0,
            1 <= k <= c.len(),
            2 * c.len() <= usize::MAX,
            mu <= k,
            orbit(c, k as nat) == orbit(c, 2 * k as nat),
            tortoise == orbit(c, mu as nat),
            hare == orbit(c, (k + mu) as nat),
            forall|t: nat| t < mu ==> #[trigger] orbit(c, t) != orbit(c, (t + k) as nat),
        decreases k - mu,
    {
        proof {
            assert(mu < k);
            lemma_orbit_bounded(c, mu as nat);
            lemma_orbit_bounded(c, (k + mu) as nat);
        }
        tortoise = step(dna, tortoise);
        hare = step(dna, hare);
        mu = mu + 1;
    }
    // Phase three: the period, the hare going round once from mu.
    proof {
        lemma_orbit_bounded(c, mu as nat);
    }
    let mut lam: usize = 1;
    hare = step(dna, tortoise);
    while tortoise != hare
        invariant
            dna.wf(),
            c == dna.codons(),
            len == c.len(),
            c.len() > 0,
            1 <= k <= c.len(),
            2 * c.len() <= usize::MAX,
            mu <= k,
            1 <= lam <= k,
            orbit(c, mu as nat) == orbit(c, (mu + k) as nat),
            orbit(c, k as nat) == orbit(c, 2 * k as nat),
            forall|t: nat| t < mu ==> #[trigger] orbit(c, t) != orbit(c, (t + k) as nat),
            forall|l: nat| 1 <= l < lam ==> #[trigger] orbit(c, (mu + l) as nat) != orbit(c, mu as nat),
            tortoise == orbit(c, mu as nat),
            hare == orbit(c, (mu + lam) as nat),
        decreases k - lam,
    {
        proof {
            assert(lam < k);
            lemma_orbit_bounded(c, (mu + lam) as nat);
        }
        hare = step(dna, hare);
        lam = lam + 1;
    }
    // Replay: decode the first mu + lambda decisions and simplify them.
    proof {
        lemma_least_cycle(c, k as nat, mu as nat, lam as nat);
    }
    let total = mu + lam;
    let mut parser = crate::parsing::Parser::new(dna, 0);
    let mut thoughts: Vec<Decision> = Vec::new();
    let mut i: usize = 0;
    proof {
        vstd::arithmetic::div_mod::lemma_small_mod(0, c.len());
    }
    while i < total
        invariant
            dna.wf(),
            c == dna.codons(),
            c.len() > 0,
            total == mu + lam,
            dna.valid_spec(),
            i <= total,
            parser.wf(),
            !parser.for_feeder,
            parser.codons() == c,
            parser.cursor() == (crate::parsing::Cursor { pos: orbit(c, i as nat), icount: 0, skipped: 0 }),
            thoughts@.len() == i,
            forall|j: nat| j < i ==> (#[trigger] stream_thought(c, j)) is Dec && thoughts@[j as int] == simplified(
                stream_thought(c, j)->Dec_0,
            ),
        decreases total - i,
    {
        let thought = parser.next();
        proof {
            assert(thought == stream_thought(c, i as nat));
            vstd::arithmetic::div_mod::lemma_small_mod(thought.offset_spec() as nat, c.len());
            assert(orbit(c, (i + 1) as nat) == thought.offset_spec());
        }
        match thought.into_result() {
            Err(indecision) => {
                return Err(indecision.reason);
            },
            Ok(decision) => {
                let tree = simplify(decision.tree);
                thoughts.push(Decision { tree, offset: decision.offset, icount: decision.icount, skipped: decision.skipped });
            },
        }
        i = i + 1;
    }
    Ok(ThoughtCycle { thoughts, cycle_offset: mu, cursor: 0 })
}

/// The offset that the stream reaches at step `n` is the one at the cached
/// index of step `n`.
proof fn lemma_orbit_replay(tc: ThoughtCycle, c: Seq<i8>, n: nat)
    requires
        tc.caches(c),
    ensures
        tc.replay_index(n) < tc.thoughts@.len(),
        orbit(c, n) == orbit(c, tc.replay_index(n)),
    decreases n,
{
    let len = tc.thoughts@.len();
    let mu = tc.cycle_offset as nat;
    let lam = (len - mu) as nat;
    if n >= len {
        let m = (n - lam) as nat;
        lemma_orbit_replay(tc, c, m);
        lemma_orbit_shift(c, mu, lam, (n - len) as nat);
        assert(mu + (n - len) == m);
        assert(mu + lam + (n - len) == n);
        vstd::arithmetic::div_mod::lemma_mod_add_multiples_vanish(m - mu, lam as int);
        assert((n - mu) % (lam as int) == (m - mu) % (lam as int));
        if m < len {
            vstd::arithmetic::div_mod::lemma_small_mod((m - mu) as nat, lam);
        }
        assert(0 <= (n - mu) % (lam as int) < lam) by (nonlinear_arith)
            requires lam > 0;
    }
}

/// Replaying a thought cycle reproduces the genome's decode stream: for
/// every step `n` the stream holds a decision, and the cycle's entry at the
/// cached index of step `n` is that decision, simplified. Advancing the
/// cursor from the cached index of step `n` reaches that of step `n + 1`,
/// so a cursor started at 0 walks the whole infinite stream.
pub proof fn lemma_cycle_replays_stream(tc: ThoughtCycle, c: Seq<i8>, n: nat)
    requires
        tc.caches(c),
    ensures
        tc.replay_index(n) < tc.thoughts@.len(),
        stream_thought(c, n) is Dec,
        tc.thoughts@[tc.replay_index(n) as int] == simplified(stream_thought(c, n)->Dec_0),
        tc.advance(tc.replay_index(n)) == tc.replay_index(n + 1),
{
    let len = tc.thoughts@.len();
    let mu = tc.cycle_offset as nat;
    let lam = (len - mu) as nat;
    lemma_orbit_replay(tc, c, n);
    let ri = tc.replay_index(n);
    assert(stream_thought(c, ri) is Dec);
    assert(stream_thought(c, n) == stream_thought(c, ri));
    if n + 1 < len {
    } else if n + 1 == len {
        vstd::arithmetic::div_mod::lemma_mod_self_0(lam as int);
        assert((n + 1 - mu) % (lam as int) == 0);
    } else {
        let x = n - mu;
        assert(0 <= x % (lam as int) < lam) by (nonlinear_arith)
            requires lam > 0;
        if x % (lam as int) + 1 < lam {
            assert((x + 1) % (lam as int) == x % (lam as int) + 1) by (nonlinear_arith)
                requires lam > 0, x % (lam as int) + 1 < lam, x >= 0;
        } else {
            assert((x + 1) % (lam as int) == 0) by (nonlinear_arith)
                requires lam > 0, x % (lam as int) + 1 == lam, x >= 0;
        }
    }
}

} // verus!
