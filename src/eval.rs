//! The evaluator: walks a decision tree against two creatures and yields
//! the one action the first of them performs.

use vstd::prelude::*;

use crate::ast::{ActorType, Action, BinOp, Condition, Value};
use crate::creatures::Creature;
use crate::lex::{DamageType, Signal};
use crate::rng::RngState;
use crate::simplify::{
    binop_holds, fold_action, fold_condition, in_range, simplify_spec, unwrap_action, unwrap_condition,
};
use crate::MAX_GENE_VALUE;

verus! {

/// The concrete action a decision resolves to.
#[derive(Debug, Copy, Clone, PartialEq, Eq, Structural)]
pub enum PerformableAction {
    Attack(DamageType),
    Defend(DamageType),
    Signal(Signal),
    Eat,
    Take,
    Wait,
    Flee,
    Mate,
    NoAction,
}

/// What a condition yields for `me` facing `other`, every random value
/// reading `roll`.
pub open spec fn eval_condition(me: Creature, other: Creature, roll: nat, tree: Condition) -> PerformableAction
    decreases tree,
{
    match tree {
        Condition::Always(a) => eval_action(me, other, roll, a),
        Condition::RangeCompare { value, bound_a, bound_b, affirmed, denied } => if in_range(
            eval_value(me, other, roll, value) as int,
            eval_value(me, other, roll, bound_a) as int,
            eval_value(me, other, roll, bound_b) as int,
        ) {
            eval_action(me, other, roll, affirmed)
        } else {
            eval_action(me, other, roll, denied)
        },
        Condition::BinCompare { operation, lhs, rhs, affirmed, denied } => if binop_holds(
            operation,
            eval_value(me, other, roll, lhs) as int,
            eval_value(me, other, roll, rhs) as int,
        ) {
            eval_action(me, other, roll, affirmed)
        } else {
            eval_action(me, other, roll, denied)
        },
        Condition::ActionCompare { actor_type, action, affirmed, denied } => {
            let last = match actor_type {
                ActorType::Me => me.last_action,
                ActorType::Other => other.last_action,
            };
            if eval_action(me, other, roll, action) == last {
                eval_action(me, other, roll, affirmed)
            } else {
                eval_action(me, other, roll, denied)
            }
        },
    }
}

/// What an action node yields.
pub open spec fn eval_action(me: Creature, other: Creature, roll: nat, action: Action) -> PerformableAction
    decreases action,
{
    match action {
        Action::Subcondition(c) => eval_condition(me, other, roll, *c),
        Action::Attack(d) => PerformableAction::Attack(d),
        Action::Defend(d) => PerformableAction::Defend(d),
        Action::Signal(s) => PerformableAction::Signal(s),
        Action::Eat => PerformableAction::Eat,
        Action::Take => PerformableAction::Take,
        Action::Wait => PerformableAction::Wait,
        Action::Flee => PerformableAction::Flee,
        Action::Mate => PerformableAction::Mate,
    }
}

/// What a value reads.
pub open spec fn eval_value(me: Creature, other: Creature, roll: nat, v: Value) -> nat {
    match v {
        Value::Literal(x) => x as nat,
        Value::Random => roll,
        Value::Me(a) => me.attr_spec(a),
        Value::Other(a) => other.attr_spec(a),
    }
}

/// Evaluates `tree` for `me` facing `other`. Random values are drawn from a
/// generator seeded from the two creatures, so each evaluation reads one
/// value in `[0, MAX_GENE_VALUE]` for all of them.
pub fn evaluate(me: &Creature, other: &Creature, tree: &Condition) -> (r: PerformableAction)
    requires
        me.dna.wf(),
        other.dna.wf(),
    ensures
        exists|roll: nat| roll <= MAX_GENE_VALUE && r == eval_condition(*me, *other, roll, *tree),
{
    let mut rng = RngState::from_creatures(me, other);
    let roll = rng.uniform(0, MAX_GENE_VALUE as usize);
    evaluate_with_roll(me, other, roll, tree)
}

/// Evaluates `tree` for `me` facing `other`, every random value reading `roll`.
pub fn evaluate_with_roll(me: &Creature, other: &Creature, roll: usize, tree: &Condition) -> (r: PerformableAction)
    ensures
        r == eval_condition(*me, *other, roll as nat, *tree),
    decreases tree,
{
    match tree {
        Condition::Always(action) => eval_action_exec(me, other, roll, action),
        Condition::RangeCompare { value, bound_a, bound_b, affirmed, denied } => {
            let a = eval_value_exec(me, other, roll, bound_a);
            let b = eval_value_exec(me, other, roll, bound_b);
            let check_val = eval_value_exec(me, other, roll, value);
            let lo = if a <= b { a } else { b };
            let hi = if a <= b { b } else { a };
            if lo <= check_val && check_val <= hi {
                eval_action_exec(me, other, roll, affirmed)
            } else {
                eval_action_exec(me, other, roll, denied)
            }
        },
        Condition::BinCompare { operation, lhs, rhs, affirmed, denied } => {
            let l = eval_value_exec(me, other, roll, lhs);
            let r = eval_value_exec(me, other, roll, rhs);
            let holds = match operation {
                BinOp::LT => l < r,
                BinOp::GT => l > r,
                BinOp::EQ => l == r,
                BinOp::NE => l != r,
            };
            if holds {
                eval_action_exec(me, other, roll, affirmed)
            } else {
                eval_action_exec(me, other, roll, denied)
            }
        },
        Condition::ActionCompare { actor_type, action, affirmed, denied } => {
            let last = match actor_type {
                ActorType::Me => me.last_action,
                ActorType::Other => other.last_action,
            };
            let mine = eval_action_exec(me, other, roll, action);
            if mine == last {
                eval_action_exec(me, other, roll, affirmed)
            } else {
                eval_action_exec(me, other, roll, denied)
            }
        },
    }
}

fn eval_action_exec(me: &Creature, other: &Creature, roll: usize, action: &Action) -> (r: PerformableAction)
    ensures
        r == eval_action(*me, *other, roll as nat, *action),
    decreases action,
{
    match action {
        Action::Attack(dmg) => PerformableAction::Attack(*dmg),
        Action::Defend(dmg) => PerformableAction::Defend(*dmg),
        Action::Signal(sig) => PerformableAction::Signal(*sig),
        Action::Eat => PerformableAction::Eat,
        Action::Take => PerformableAction::Take,
        Action::Wait => PerformableAction::Wait,
        Action::Flee => PerformableAction::Flee,
        Action::Mate => PerformableAction::Mate,
        Action::Subcondition(sub) => evaluate_with_roll(me, other, roll, &**sub),
    }
}

fn eval_value_exec(me: &Creature, other: &Creature, roll: usize, val: &Value) -> (r: usize)
    ensures
        r == eval_value(*me, *other, roll as nat, *val),
{
    match val {
        Value::Literal(x) => *x as usize,
        Value::Random => roll,
        Value::Me(attr) => me.attr(*attr),
        Value::Other(attr) => other.attr(*attr),
    }
}

proof fn lemma_fold_action(me: Creature, other: Creature, roll: nat, a: Action)
    ensures
        eval_action(me, other, roll, fold_action(a)) == eval_action(me, other, roll, a),
    decreases a,
{
    if let Action::Subcondition(b) = a {
        match *b {
            Condition::Always(inner) => {
                lemma_fold_action(me, other, roll, inner);
            },
            cond => {
                lemma_fold_condition(me, other, roll, cond);
            },
        }
    }
}

proof fn lemma_fold_condition(me: Creature, other: Creature, roll: nat, c: Condition)
    ensures
        eval_condition(me, other, roll, fold_condition(c)) == eval_condition(me, other, roll, c),
    decreases c,
{
    match c {
        Condition::Always(a) => {
            lemma_fold_action(me, other, roll, a);
        },
        Condition::RangeCompare { value, bound_a, bound_b, affirmed, denied } => {
            lemma_fold_action(me, other, roll, affirmed);
            lemma_fold_action(me, other, roll, denied);
        },
        Condition::BinCompare { operation, lhs, rhs, affirmed, denied } => {
            lemma_fold_action(me, other, roll, affirmed);
            lemma_fold_action(me, other, roll, denied);
        },
        Condition::ActionCompare { actor_type, action, affirmed, denied } => {
            lemma_fold_action(me, other, roll, action);
            lemma_fold_action(me, other, roll, affirmed);
            lemma_fold_action(me, other, roll, denied);
        },
    }
}

proof fn lemma_unwrap_action(me: Creature, other: Creature, roll: nat, a: Action)
    ensures
        eval_action(me, other, roll, unwrap_action(a)) == eval_action(me, other, roll, a),
    decreases a,
{
    if let Action::Subcondition(b) = a {
        lemma_unwrap_condition(me, other, roll, *b);
    }
}

proof fn lemma_unwrap_condition(me: Creature, other: Creature, roll: nat, c: Condition)
    ensures
        eval_condition(me, other, roll, unwrap_condition(c)) == eval_condition(me, other, roll, c),
    decreases c,
{
    match c {
        Condition::Always(a) => {
            match a {
                Action::Subcondition(b) => {
                    lemma_unwrap_condition(me, other, roll, *b);
                },
                _ => {
                    lemma_unwrap_action(me, other, roll, a);
                },
            }
        },
        Condition::RangeCompare { value, bound_a, bound_b, affirmed, denied } => {
            lemma_unwrap_action(me, other, roll, affirmed);
            lemma_unwrap_action(me, other, roll, denied);
        },
        Condition::BinCompare { operation, lhs, rhs, affirmed, denied } => {
            lemma_unwrap_action(me, other, roll, affirmed);
            lemma_unwrap_action(me, other, roll, denied);
        },
        Condition::ActionCompare { actor_type, action, affirmed, denied } => {
            lemma_unwrap_action(me, other, roll, action);
            lemma_unwrap_action(me, other, roll, affirmed);
            lemma_unwrap_action(me, other, roll, denied);
        },
    }
}

/// Simplifying a tree never changes what it evaluates to: for every pair
/// of creatures and every random value, the simplified tree yields the
/// same action as the original.
pub proof fn lemma_simplify_preserves_evaluation(me: Creature, other: Creature, roll: nat, tree: Condition)
    ensures
        eval_condition(me, other, roll, simplify_spec(tree)) == eval_condition(me, other, roll, tree),
{
    reveal(simplify_spec);
    lemma_fold_condition(me, other, roll, tree);
    lemma_unwrap_condition(me, other, roll, fold_condition(tree));
}

} // verus!
