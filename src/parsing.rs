//! The decoder: a recursive-descent reader that turns a circular codon
//! stream into one decision tree under an instruction budget.

use vstd::prelude::*;

use crate::ast::{ActorType, Action, BinOp, Condition, Value};
use crate::dna::{DNA, DNAIter};
use crate::lex::{token_of, token_spec, Attribute, DamageType, Signal, TokenKind};
use crate::{MAX_THINKING_STEPS, MAX_TREE_DEPTH};

verus! {

/// Why a decode gave no decision.
#[derive(Debug, Copy, Clone, PartialEq, Eq, Structural)]
pub enum Failure {
    IsFeeder,
    DNAEmpty,
    TookTooLong,
    ParseTreeTooDeep,
}

/// A decoded tree, with where the decode stopped and what it cost.
#[derive(Debug, PartialEq, Eq)]
pub struct Decision {
    pub tree: Condition,
    pub offset: usize,
    pub icount: usize,
    pub skipped: usize,
}

/// A failed decode, with where it stopped and what it cost.
#[derive(Debug, PartialEq, Eq)]
pub struct Indecision {
    pub reason: Failure,
    pub icount: usize,
    pub skipped: usize,
    pub offset: usize,
}

/// The result of one decode.
#[derive(Debug, PartialEq, Eq)]
pub enum Thought {
    Dec(Decision),
    Ind(Indecision),
}

impl Decision {
    /// A copy of the decision.
    pub fn duplicate(&self) -> (r: Decision)
        ensures
            r == *self,
    {
        Decision {
            tree: self.tree.duplicate(),
            offset: self.offset,
            icount: self.icount,
            skipped: self.skipped,
        }
    }
}

/// Where a decode stands: the next codon's position and the reads so far,
/// productive (`icount`) and skipped.
pub struct Cursor {
    pub pos: nat,
    pub icount: nat,
    pub skipped: nat,
}

/// Reads counted against the budget.
pub open spec fn used(st: Cursor) -> nat {
    st.icount + st.skipped
}

/// The outcome of one grammar rule: a value and the cursor after it, or a
/// failure and the cursor where it came.
pub enum Parsed<T> {
    Done(T, Cursor),
    Fail(Failure, Cursor),
}

/// The cursor after reading the codon at `st.pos` as a skipped one.
pub open spec fn skip_one(c: Seq<i8>, st: Cursor) -> Cursor {
    Cursor { pos: ((st.pos + 1) as int % c.len() as int) as nat, icount: st.icount, skipped: st.skipped + 1 }
}

/// Looks for a token of kind `k`, codon `x` having just been read: a codon
/// that names no such token is skipped and the next one read, until one
/// does or the reads exceed the budget.
pub open spec fn scan(c: Seq<i8>, k: TokenKind, st: Cursor, x: i8) -> Parsed<u8>
    decreases MAX_THINKING_STEPS + 1 - used(st),
{
    if used(st) > MAX_THINKING_STEPS {
        Parsed::Fail(Failure::TookTooLong, st)
    } else {
        match token_spec(k, x) {
            Some(t) => Parsed::Done(t, st),
            None => scan(c, k, skip_one(c, st), c[st.pos as int]),
        }
    }
}

/// Reads one token of kind `k`; its first read is a productive one.
pub open spec fn read_token(c: Seq<i8>, k: TokenKind, st: Cursor) -> Parsed<u8> {
    scan(
        c,
        k,
        Cursor { pos: ((st.pos + 1) as int % c.len() as int) as nat, icount: st.icount + 1, skipped: st.skipped },
        c[st.pos as int],
    )
}

/// Value → Literal(byte) | Random | Me(Attribute) | Other(Attribute).
pub open spec fn parse_value_spec(c: Seq<i8>, st: Cursor) -> Parsed<Value> {
    match read_token(c, TokenKind::Value, st) {
        Parsed::Fail(f, s) => Parsed::Fail(f, s),
        Parsed::Done(t, s1) => if t == 1 {
            Parsed::Done(Value::Random, s1)
        } else {
            let k = if t == 0 { TokenKind::Literal } else { TokenKind::Attribute };
            match read_token(c, k, s1) {
                Parsed::Fail(f, s) => Parsed::Fail(f, s),
                Parsed::Done(x, s2) => Parsed::Done(
                    if t == 0 {
                        Value::Literal(x)
                    } else if t == 2 {
                        Value::Me(Attribute::from_spec(x))
                    } else {
                        Value::Other(Attribute::from_spec(x))
                    },
                    s2,
                ),
            }
        },
    }
}

/// Action → Subcondition Condition | Attack DamageType | Defend DamageType
/// | Signal Colour | Eat | Take | Mate | Wait | Flee. `fuel` bounds the
/// nesting; a decode gives enough that it never runs out.
pub open spec fn parse_action_spec(c: Seq<i8>, st: Cursor, depth: nat, fuel: nat) -> Parsed<Action>
    decreases fuel, 0nat,
{
    if fuel == 0 {
        Parsed::Fail(Failure::TookTooLong, st)
    } else {
        match read_token(c, TokenKind::Action, st) {
            Parsed::Fail(f, s) => Parsed::Fail(f, s),
            Parsed::Done(t, s1) => if t == 0 {
                match parse_condition_spec(c, s1, depth + 1, (fuel - 1) as nat) {
                    Parsed::Fail(f, s) => Parsed::Fail(f, s),
                    Parsed::Done(cond, s2) => Parsed::Done(Action::Subcondition(Box::new(cond)), s2),
                }
            } else if t == 2 {
                Parsed::Done(Action::Mate, s1)
            } else if t == 4 {
                Parsed::Done(Action::Eat, s1)
            } else if t == 6 {
                Parsed::Done(Action::Take, s1)
            } else if t == 7 {
                Parsed::Done(Action::Wait, s1)
            } else if t == 8 {
                Parsed::Done(Action::Flee, s1)
            } else {
                let k = if t == 5 { TokenKind::Signal } else { TokenKind::DamageType };
                match read_token(c, k, s1) {
                    Parsed::Fail(f, s) => Parsed::Fail(f, s),
                    Parsed::Done(x, s2) => Parsed::Done(
                        if t == 1 {
                            Action::Attack(DamageType::from_spec(x))
                        } else if t == 3 {
                            Action::Defend(DamageType::from_spec(x))
                        } else {
                            Action::Signal(Signal::from_spec(x))
                        },
                        s2,
                    ),
                }
            },
        }
    }
}

/// Two actions in a row.
pub open spec fn parse_two_actions_spec(c: Seq<i8>, st: Cursor, depth: nat, fuel: nat) -> Parsed<(Action, Action)>
    decreases fuel, 1nat,
{
    match parse_action_spec(c, st, depth, fuel) {
        Parsed::Fail(f, s) => Parsed::Fail(f, s),
        Parsed::Done(a, s1) => match parse_action_spec(c, s1, depth, fuel) {
            Parsed::Fail(f, s) => Parsed::Fail(f, s),
            Parsed::Done(b, s2) => Parsed::Done((a, b), s2),
        },
    }
}

/// Two values in a row.
pub open spec fn parse_two_values_spec(c: Seq<i8>, st: Cursor) -> Parsed<(Value, Value)> {
    match parse_value_spec(c, st) {
        Parsed::Fail(f, s) => Parsed::Fail(f, s),
        Parsed::Done(a, s1) => match parse_value_spec(c, s1) {
            Parsed::Fail(f, s) => Parsed::Fail(f, s),
            Parsed::Done(b, s2) => Parsed::Done((a, b), s2),
        },
    }
}

/// Condition → Always Action | InRange Value Value Value Action Action
/// | {LT, GT, EQ, NE} Value Value Action Action
/// | {MyLastAction, OtherLastAction} Action Action Action.
/// Past the depth limit it fails before reading.
pub open spec fn parse_condition_spec(c: Seq<i8>, st: Cursor, depth: nat, fuel: nat) -> Parsed<Condition>
    decreases fuel, 2nat,
{
    if fuel == 0 {
        Parsed::Fail(Failure::TookTooLong, st)
    } else if depth > MAX_TREE_DEPTH {
        Parsed::Fail(Failure::ParseTreeTooDeep, st)
    } else {
        let f1 = (fuel - 1) as nat;
        match read_token(c, TokenKind::Condition, st) {
            Parsed::Fail(f, s) => Parsed::Fail(f, s),
            Parsed::Done(t, s1) => if t == 0 {
                match parse_action_spec(c, s1, depth, f1) {
                    Parsed::Fail(f, s) => Parsed::Fail(f, s),
                    Parsed::Done(a, s2) => Parsed::Done(Condition::Always(a), s2),
                }
            } else if t == 1 {
                match parse_value_spec(c, s1) {
                    Parsed::Fail(f, s) => Parsed::Fail(f, s),
                    Parsed::Done(v, s2) => match parse_two_values_spec(c, s2) {
                        Parsed::Fail(f, s) => Parsed::Fail(f, s),
                        Parsed::Done((a, b), s3) => match parse_two_actions_spec(c, s3, depth, f1) {
                            Parsed::Fail(f, s) => Parsed::Fail(f, s),
                            Parsed::Done((y, n), s4) => Parsed::Done(
                                Condition::RangeCompare { value: v, bound_a: a, bound_b: b, affirmed: y, denied: n },
                                s4,
                            ),
                        },
                    },
                }
            } else if t <= 5 {
                match parse_two_values_spec(c, s1) {
                    Parsed::Fail(f, s) => Parsed::Fail(f, s),
                    Parsed::Done((l, r), s2) => match parse_two_actions_spec(c, s2, depth, f1) {
                        Parsed::Fail(f, s) => Parsed::Fail(f, s),
                        Parsed::Done((y, n), s3) => Parsed::Done(
                            Condition::BinCompare { operation: binop_of(t), lhs: l, rhs: r, affirmed: y, denied: n },
                            s3,
                        ),
                    },
                }
            } else {
                match parse_action_spec(c, s1, depth, f1) {
                    Parsed::Fail(f, s) => Parsed::Fail(f, s),
                    Parsed::Done(x, s2) => match parse_two_actions_spec(c, s2, depth, f1) {
                        Parsed::Fail(f, s) => Parsed::Fail(f, s),
                        Parsed::Done((y, n), s3) => Parsed::Done(
                            Condition::ActionCompare {
                                actor_type: if t == 6 { ActorType::Me } else { ActorType::Other },
                                action: x,
                                affirmed: y,
                                denied: n,
                            },
                            s3,
                        ),
                    },
                }
            },
        }
    }
}

/// The comparison that condition token `t` names.
pub open spec fn binop_of(t: u8) -> BinOp {
    if t == 2 {
        BinOp::LT
    } else if t == 3 {
        BinOp::GT
    } else if t == 4 {
        BinOp::EQ
    } else {
        BinOp::NE
    }
}

/// Decoding codons `c` from position `start`: one condition tree, read
/// with a fresh budget.
#[verifier::opaque]
pub open spec fn decode_spec(c: Seq<i8>, start: nat) -> Thought {
    let st = Cursor { pos: start, icount: 0, skipped: 0 };
    match parse_condition_spec(c, st, 0, (MAX_THINKING_STEPS + 1) as nat) {
        Parsed::Done(t, s) => Thought::Dec(
            Decision { tree: t, offset: s.pos as usize, icount: s.icount as usize, skipped: s.skipped as usize },
        ),
        Parsed::Fail(f, s) => Thought::Ind(
            Indecision { reason: f, icount: s.icount as usize, skipped: s.skipped as usize, offset: s.pos as usize },
        ),
    }
}

impl Thought {
    pub open spec fn offset_spec(self) -> usize {
        match self {
            Thought::Dec(d) => d.offset,
            Thought::Ind(i) => i.offset,
        }
    }

    pub open spec fn icount_spec(self) -> usize {
        match self {
            Thought::Dec(d) => d.icount,
            Thought::Ind(i) => i.icount,
        }
    }

    pub open spec fn skipped_spec(self) -> usize {
        match self {
            Thought::Dec(d) => d.skipped,
            Thought::Ind(i) => i.skipped,
        }
    }

    /// The feeder's fixed decision: always wait, at a cost above the budget.
    pub fn feeder_decision() -> (r: Thought)
        ensures
            r == Thought::Dec(
                Decision {
                    tree: Condition::Always(Action::Wait),
                    offset: 0,
                    icount: 0,
                    skipped: (MAX_THINKING_STEPS + 1) as usize,
                },
            ),
    {
        Thought::Dec(
            Decision {
                tree: Condition::Always(Action::Wait),
                icount: 0,
                skipped: MAX_THINKING_STEPS + 1,
                offset: 0,
            },
        )
    }

    pub fn icount(&self) -> (r: usize)
        ensures
            r == self.icount_spec(),
    {
        match self {
            Thought::Dec(d) => d.icount,
            Thought::Ind(i) => i.icount,
        }
    }

    pub fn skipped(&self) -> (r: usize)
        ensures
            r == self.skipped_spec(),
    {
        match self {
            Thought::Dec(d) => d.skipped,
            Thought::Ind(i) => i.skipped,
        }
    }

    pub fn offset(&self) -> (r: usize)
        ensures
            r == self.offset_spec(),
    {
        match self {
            Thought::Dec(d) => d.offset,
            Thought::Ind(i) => i.offset,
        }
    }

    pub fn is_indecision(&self) -> (r: bool)
        ensures
            r == (self is Ind),
    {
        match self {
            Thought::Dec(_) => false,
            Thought::Ind(_) => true,
        }
    }

    pub fn into_result(self) -> (r: Result<Decision, Indecision>)
        ensures
            self is Dec ==> r == Ok::<Decision, Indecision>(self->Dec_0),
            self is Ind ==> r == Err::<Decision, Indecision>(self->Ind_0),
    {
        match self {
            Thought::Dec(a) => Ok(a),
            Thought::Ind(b) => Err(b),
        }
    }
}

/// Whether an executable result and cursor are what the grammar rule gave.
pub open spec fn agrees<T>(p: Parsed<T>, r: Result<T, Failure>, st: Cursor) -> bool {
    match p {
        Parsed::Done(v, s) => r == Ok::<T, Failure>(v) && st == s,
        Parsed::Fail(f, s) => r == Err::<T, Failure>(f) && st == s,
    }
}

/// What every decoding step leaves behind: more reads than before, a budget
/// kept on success and exceeded by exactly one read on `TookTooLong`.
pub open spec fn step_bounds<T>(before: Cursor, after: Cursor, r: Result<T, Failure>) -> bool {
    &&& used(after) > used(before)
    &&& r is Ok ==> used(after) <= MAX_THINKING_STEPS
    &&& r == Err::<T, Failure>(Failure::TookTooLong) ==> used(after) == MAX_THINKING_STEPS + 1
    &&& r is Err ==> (r == Err::<T, Failure>(Failure::TookTooLong) || r == Err::<T, Failure>(
        Failure::ParseTreeTooDeep,
    ))
}

/// A decoder over one genome's circular codon stream.
pub struct Parser {
    pub icount: usize,
    pub skipped: usize,
    pub for_feeder: bool,
    pub dna_stream: DNAIter,
}

impl Parser {
    /// Where the decoder stands.
    pub open spec fn cursor(&self) -> Cursor {
        Cursor { pos: self.dna_stream.offset as nat, icount: self.icount as nat, skipped: self.skipped as nat }
    }

    /// The codons the decoder reads.
    pub open spec fn codons(&self) -> Seq<i8> {
        self.dna_stream.dna.codons()
    }

    pub open spec fn wf(&self) -> bool {
        &&& self.dna_stream.wf()
        &&& used(self.cursor()) <= MAX_THINKING_STEPS + 1
    }

    /// A decoder for `dna` starting at `offset` (taken modulo its length).
    pub fn new(dna: &DNA, offset: usize) -> (r: Parser)
        requires
            dna.wf(),
            dna.0@.len() > 0,
        ensures
            r.wf(),
            !r.for_feeder,
            r.codons() == dna.codons(),
            r.cursor() == (Cursor { pos: (offset as int % dna.codons().len() as int) as nat, icount: 0, skipped: 0 }),
    {
        Parser { icount: 0, skipped: 0, dna_stream: dna.base_stream(offset), for_feeder: false }
    }

    /// The feeder's decoder, which always gives the feeder's decision.
    pub fn feeder_new() -> (r: Parser)
        ensures
            r.wf(),
            r.for_feeder,
    {
        let dna = DNA::feeder();
        Parser { icount: 0, skipped: 0, dna_stream: dna.base_stream(0), for_feeder: true }
    }

    /// Position of the next codon to read.
    pub fn current_offset(&self) -> (r: usize)
        ensures
            r == self.dna_stream.offset,
    {
        self.dna_stream.offset()
    }

    /// Reads a token of kind `k`, skipping codons that name none.
    fn next_valid(&mut self, k: TokenKind) -> (r: Result<u8, Failure>)
        requires
            old(self).wf(),
            used(old(self).cursor()) <= MAX_THINKING_STEPS,
        ensures
            final(self).wf(),
            final(self).codons() == old(self).codons(),
            final(self).for_feeder == old(self).for_feeder,
            agrees(read_token(old(self).codons(), k, old(self).cursor()), r, final(self).cursor()),
            step_bounds(old(self).cursor(), final(self).cursor(), r),
    {
        let ghost c = self.codons();
        let mut x = self.dna_stream.next_codon();
        self.icount += 1;
        loop
            invariant
                self.wf(),
                self.codons() == c,
                c == old(self).codons(),
                self.for_feeder == old(self).for_feeder,
                used(self.cursor()) > used(old(self).cursor()),
                scan(c, k, self.cursor(), x) == read_token(c, k, old(self).cursor()),
            decreases MAX_THINKING_STEPS + 1 - used(self.cursor()),
        {
            if self.icount + self.skipped > MAX_THINKING_STEPS {
                return Err(Failure::TookTooLong);
            }
            match token_of(k, x) {
                Some(t) => {
                    return Ok(t);
                },
                None => {
                    x = self.dna_stream.next_codon();
                    self.skipped += 1;
                },
            }
        }
    }

    fn parse_value(&mut self) -> (r: Result<Value, Failure>)
        requires
            old(self).wf(),
            used(old(self).cursor()) <= MAX_THINKING_STEPS,
        ensures
            final(self).wf(),
            final(self).codons() == old(self).codons(),
            final(self).for_feeder == old(self).for_feeder,
            agrees(parse_value_spec(old(self).codons(), old(self).cursor()), r, final(self).cursor()),
            step_bounds(old(self).cursor(), final(self).cursor(), r),
    {
        let t = match self.next_valid(TokenKind::Value) {
            Ok(t) => t,
            Err(f) => return Err(f),
        };
        if t == 1 {
            return Ok(Value::Random);
        }
        let k = if t == 0 {
            TokenKind::Literal
        } else {
            TokenKind::Attribute
        };
        let x = match self.next_valid(k) {
            Ok(x) => x,
            Err(f) => return Err(f),
        };
        if t == 0 {
            Ok(Value::Literal(x))
        } else if t == 2 {
            Ok(Value::Me(Attribute::from_token(x)))
        } else {
            Ok(Value::Other(Attribute::from_token(x)))
        }
    }

    fn parse_action(&mut self, depth: usize, Ghost(fuel): Ghost<nat>) -> (r: Result<Action, Failure>)
        requires
            old(self).wf(),
            used(old(self).cursor()) <= MAX_THINKING_STEPS,
            fuel + used(old(self).cursor()) >= MAX_THINKING_STEPS + 1,
            depth <= MAX_TREE_DEPTH,
        ensures
            final(self).wf(),
            final(self).codons() == old(self).codons(),
            final(self).for_feeder == old(self).for_feeder,
            agrees(parse_action_spec(old(self).codons(), old(self).cursor(), depth as nat, fuel), r, final(self).cursor()),
            step_bounds(old(self).cursor(), final(self).cursor(), r),
        decreases fuel, 0nat,
    {
        let t = match self.next_valid(TokenKind::Action) {
            Ok(t) => t,
            Err(f) => return Err(f),
        };
        if t == 0 {
            match self.parse_condition(depth + 1, Ghost((fuel - 1) as nat)) {
                Ok(cond) => Ok(Action::Subcondition(Box::new(cond))),
                Err(f) => Err(f),
            }
        } else if t == 2 {
            Ok(Action::Mate)
        } else if t == 4 {
            Ok(Action::Eat)
        } else if t == 6 {
            Ok(Action::Take)
        } else if t == 7 {
            Ok(Action::Wait)
        } else if t == 8 {
            Ok(Action::Flee)
        } else {
            let k = if t == 5 {
                TokenKind::Signal
            } else {
                TokenKind::DamageType
            };
            let x = match self.next_valid(k) {
                Ok(x) => x,
                Err(f) => return Err(f),
            };
            if t == 1 {
                Ok(Action::Attack(DamageType::from_token(x)))
            } else if t == 3 {
                Ok(Action::Defend(DamageType::from_token(x)))
            } else {
                Ok(Action::Signal(Signal::from_token(x)))
            }
        }
    }

    fn parse_two_actions(&mut self, depth: usize, Ghost(fuel): Ghost<nat>) -> (r: Result<(Action, Action), Failure>)
        requires
            old(self).wf(),
            used(old(self).cursor()) <= MAX_THINKING_STEPS,
            fuel + used(old(self).cursor()) >= MAX_THINKING_STEPS + 1,
            depth <= MAX_TREE_DEPTH,
        ensures
            final(self).wf(),
            final(self).codons() == old(self).codons(),
            final(self).for_feeder == old(self).for_feeder,
            agrees(parse_two_actions_spec(old(self).codons(), old(self).cursor(), depth as nat, fuel), r, final(self).cursor()),
            step_bounds(old(self).cursor(), final(self).cursor(), r),
        decreases fuel, 1nat,
    {
        let a = match self.parse_action(depth, Ghost(fuel)) {
            Ok(a) => a,
            Err(f) => return Err(f),
        };
        let b = match self.parse_action(depth, Ghost(fuel)) {
            Ok(b) => b,
            Err(f) => return Err(f),
        };
        Ok((a, b))
    }

    fn parse_two_values(&mut self) -> (r: Result<(Value, Value), Failure>)
        requires
            old(self).wf(),
            used(old(self).cursor()) <= MAX_THINKING_STEPS,
        ensures
            final(self).wf(),
            final(self).codons() == old(self).codons(),
            final(self).for_feeder == old(self).for_feeder,
            agrees(parse_two_values_spec(old(self).codons(), old(self).cursor()), r, final(self).cursor()),
            step_bounds(old(self).cursor(), final(self).cursor(), r),
    {
        let a = match self.parse_value() {
            Ok(a) => a,
            Err(f) => return Err(f),
        };
        let b = match self.parse_value() {
            Ok(b) => b,
            Err(f) => return Err(f),
        };
        Ok((a, b))
    }

    #[verifier::rlimit(40)]
    fn parse_condition(&mut self, depth: usize, Ghost(fuel): Ghost<nat>) -> (r: Result<Condition, Failure>)
        requires
            old(self).wf(),
            used(old(self).cursor()) <= MAX_THINKING_STEPS,
            fuel + used(old(self).cursor()) >= MAX_THINKING_STEPS + 1,
            depth <= MAX_TREE_DEPTH + 1,
        ensures
            final(self).wf(),
            final(self).codons() == old(self).codons(),
            final(self).for_feeder == old(self).for_feeder,
            agrees(parse_condition_spec(old(self).codons(), old(self).cursor(), depth as nat, fuel), r, final(self).cursor()),
            r != Err::<Condition, Failure>(Failure::ParseTreeTooDeep) ==> step_bounds(old(self).cursor(), final(self).cursor(), r),
            r is Err ==> (r == Err::<Condition, Failure>(Failure::TookTooLong) || r == Err::<Condition, Failure>(
                Failure::ParseTreeTooDeep,
            )),
            r == Err::<Condition, Failure>(Failure::TookTooLong) ==> used(final(self).cursor()) == MAX_THINKING_STEPS + 1,
            used(final(self).cursor()) >= used(old(self).cursor()),
        decreases fuel, 2nat,
    {
        if depth > MAX_TREE_DEPTH {
            return Err(Failure::ParseTreeTooDeep);
        }
        let ghost f1 = (fuel - 1) as nat;
        let t = match self.next_valid(TokenKind::Condition) {
            Ok(t) => t,
            Err(f) => return Err(f),
        };
        if t == 0 {
            match self.parse_action(depth, Ghost(f1)) {
                Ok(a) => Ok(Condition::Always(a)),
                Err(f) => Err(f),
            }
        } else if t == 1 {
            let v = match self.parse_value() {
                Ok(v) => v,
                Err(f) => return Err(f),
            };
            let (a, b) = match self.parse_two_values() {
                Ok(p) => p,
                Err(f) => return Err(f),
            };
            let (y, n) = match self.parse_two_actions(depth, Ghost(f1)) {
                Ok(p) => p,
                Err(f) => return Err(f),
            };
            Ok(Condition::RangeCompare { value: v, bound_a: a, bound_b: b, affirmed: y, denied: n })
        } else if t <= 5 {
            let (l, r) = match self.parse_two_values() {
                Ok(p) => p,
                Err(f) => return Err(f),
            };
            let (y, n) = match self.parse_two_actions(depth, Ghost(f1)) {
                Ok(p) => p,
                Err(f) => return Err(f),
            };
            let operation = if t == 2 {
                BinOp::LT
            } else if t == 3 {
                BinOp::GT
            } else if t == 4 {
                BinOp::EQ
            } else {
                BinOp::NE
            };
            Ok(Condition::BinCompare { operation, lhs: l, rhs: r, affirmed: y, denied: n })
        } else {
            let x = match self.parse_action(depth, Ghost(f1)) {
                Ok(x) => x,
                Err(f) => return Err(f),
            };
            let (y, n) = match self.parse_two_actions(depth, Ghost(f1)) {
                Ok(p) => p,
                Err(f) => return Err(f),
            };
            let actor_type = if t == 6 {
                ActorType::Me
            } else {
                ActorType::Other
            };
            Ok(Condition::ActionCompare { actor_type, action: x, affirmed: y, denied: n })
        }
    }

    /// Decodes the next decision from where the last one stopped, with a
    /// fresh budget; the feeder's decoder always gives the feeder's decision.
    pub fn next(&mut self) -> (r: Thought)
        requires
            old(self).wf(),
        ensures
            final(self).wf(),
            final(self).codons() == old(self).codons(),
            final(self).for_feeder == old(self).for_feeder,
            old(self).for_feeder ==> r == Thought::Dec(
                Decision {
                    tree: Condition::Always(Action::Wait),
                    offset: 0,
                    icount: 0,
                    skipped: (MAX_THINKING_STEPS + 1) as usize,
                },
            ),
            !old(self).for_feeder ==> r == decode_spec(old(self).codons(), old(self).cursor().pos),
            !old(self).for_feeder ==> final(self).cursor() == (Cursor { pos: r.offset_spec() as nat, icount: 0, skipped: 0 }),
            !old(self).for_feeder ==> decode_bounds(r),
    {
        if self.for_feeder {
            return Thought::feeder_decision();
        }
        proof {
            reveal(decode_spec);
        }
        self.icount = 0;
        self.skipped = 0;
        let result = self.parse_condition(0, Ghost((MAX_THINKING_STEPS + 1) as nat));
        let value = match result {
            Err(reason) => Thought::Ind(
                Indecision { icount: self.icount, skipped: self.skipped, reason, offset: self.current_offset() },
            ),
            Ok(tree) => Thought::Dec(
                Decision { icount: self.icount, skipped: self.skipped, tree, offset: self.current_offset() },
            ),
        };
        self.icount = 0;
        self.skipped = 0;
        value
    }
}

/// The budget law of one decode: a decision stays within the instruction
/// budget; running out of budget fails with `TookTooLong` exactly one read
/// past it; the only other failure is a tree nested too deep.
pub open spec fn decode_bounds(t: Thought) -> bool {
    match t {
        Thought::Dec(d) => d.icount + d.skipped <= MAX_THINKING_STEPS,
        Thought::Ind(i) => (i.reason == Failure::TookTooLong && i.icount + i.skipped == MAX_THINKING_STEPS + 1)
            || i.reason == Failure::ParseTreeTooDeep,
    }
}

/// Decodes one decision from `dna` at `offset` (taken modulo its length).
/// The result is a function of the codons and the offset alone.
pub fn decode(dna: &DNA, offset: usize) -> (r: Thought)
    requires
        dna.wf(),
        dna.0@.len() > 0,
    ensures
        r == decode_spec(dna.codons(), (offset as int % dna.codons().len() as int) as nat),
        decode_bounds(r),
        r.offset_spec() < dna.codons().len(),
{
    let mut p = Parser::new(dna, offset);
    p.next()
}

} // verus!
