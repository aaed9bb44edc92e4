//! Decision trees decoded from a genome.

use vstd::prelude::*;

use crate::lex::{Attribute, DamageType, Signal};

verus! {

#[derive(Debug, Copy, Clone, PartialEq, Eq, Structural)]
pub enum BinOp {
    LT,
    GT,
    EQ,
    NE,
}

#[derive(Debug, Copy, Clone, PartialEq, Eq, Structural)]
pub enum ActorType {
    Me,
    Other,
}

/// A number read at fight time.
#[derive(Debug, Copy, Clone, PartialEq, Eq, Structural)]
pub enum Value {
    Literal(u8),
    Random,
    Me(Attribute),
    Other(Attribute),
}

/// A test made at fight time, with the actions it chooses between.
#[derive(Debug, PartialEq, Eq)]
pub enum Condition {
    Always(Action),
    RangeCompare { value: Value, bound_a: Value, bound_b: Value, affirmed: Action, denied: Action },
    BinCompare { operation: BinOp, lhs: Value, rhs: Value, affirmed: Action, denied: Action },
    ActionCompare { actor_type: ActorType, action: Action, affirmed: Action, denied: Action },
}

/// An action a condition chooses; a sub-condition nests a further test.
#[derive(Debug, PartialEq, Eq)]
pub enum Action {
    Subcondition(Box<Condition>),
    Attack(DamageType),
    Defend(DamageType),
    Signal(Signal),
    Eat,
    Take,
    Mate,
    Wait,
    Flee,
}

impl Condition {
    /// A copy of the tree.
    pub fn duplicate(&self) -> (r: Condition)
        ensures
            r == *self,
        decreases self,
    {
        match self {
            Condition::Always(a) => Condition::Always(a.duplicate()),
            Condition::RangeCompare { value, bound_a, bound_b, affirmed, denied } => {
                Condition::RangeCompare {
                    value: *value,
                    bound_a: *bound_a,
                    bound_b: *bound_b,
                    affirmed: affirmed.duplicate(),
                    denied: denied.duplicate(),
                }
            },
            Condition::BinCompare { operation, lhs, rhs, affirmed, denied } => {
                Condition::BinCompare {
                    operation: *operation,
                    lhs: *lhs,
                    rhs: *rhs,
                    affirmed: affirmed.duplicate(),
                    denied: denied.duplicate(),
                }
            },
            Condition::ActionCompare { actor_type, action, affirmed, denied } => {
                Condition::ActionCompare {
                    actor_type: *actor_type,
                    action: action.duplicate(),
                    affirmed: affirmed.duplicate(),
                    denied: denied.duplicate(),
                }
            },
        }
    }
}

impl Action {
    /// A copy of the action and any tree under it.
    pub fn duplicate(&self) -> (r: Action)
        ensures
            r == *self,
        decreases self,
    {
        match self {
            Action::Subcondition(c) => Action::Subcondition(Box::new((**c).duplicate())),
            Action::Attack(d) => Action::Attack(*d),
            Action::Defend(d) => Action::Defend(*d),
            Action::Signal(s) => Action::Signal(*s),
            Action::Eat => Action::Eat,
            Action::Take => Action::Take,
            Action::Mate => Action::Mate,
            Action::Wait => Action::Wait,
            Action::Flee => Action::Flee,
        }
    }

    /// Whether two actions are the same tree.
    pub fn same_as(&self, other: &Action) -> (r: bool)
        ensures
            r == (*self == *other),
        decreases self,
    {
        match (self, other) {
            (Action::Subcondition(a), Action::Subcondition(b)) => (**a).same_as(&**b),
            (Action::Attack(a), Action::Attack(b)) => *a == *b,
            (Action::Defend(a), Action::Defend(b)) => *a == *b,
            (Action::Signal(a), Action::Signal(b)) => *a == *b,
            (Action::Eat, Action::Eat) => true,
            (Action::Take, Action::Take) => true,
            (Action::Mate, Action::Mate) => true,
            (Action::Wait, Action::Wait) => true,
            (Action::Flee, Action::Flee) => true,
            _ => false,
        }
    }
}

impl Condition {
    /// Whether two conditions are the same tree.
    pub fn same_as(&self, other: &Condition) -> (r: bool)
        ensures
            r == (*self == *other),
        decreases self,
    {
        match (self, other) {
            (Condition::Always(a), Condition::Always(b)) => a.same_as(b),
            (
                Condition::RangeCompare { value: v1, bound_a: a1, bound_b: b1, affirmed: y1, denied: n1 },
                Condition::RangeCompare { value: v2, bound_a: a2, bound_b: b2, affirmed: y2, denied: n2 },
            ) => *v1 == *v2 && *a1 == *a2 && *b1 == *b2 && y1.same_as(y2) && n1.same_as(n2),
            (
                Condition::BinCompare { operation: o1, lhs: l1, rhs: r1, affirmed: y1, denied: n1 },
                Condition::BinCompare { operation: o2, lhs: l2, rhs: r2, affirmed: y2, denied: n2 },
            ) => *o1 == *o2 && *l1 == *l2 && *r1 == *r2 && y1.same_as(y2) && n1.same_as(n2),
            (
                Condition::ActionCompare { actor_type: t1, action: x1, affirmed: y1, denied: n1 },
                Condition::ActionCompare { actor_type: t2, action: x2, affirmed: y2, denied: n2 },
            ) => *t1 == *t2 && x1.same_as(x2) && y1.same_as(y2) && n1.same_as(n2),
            _ => false,
        }
    }
}

} // verus!
