//! Tokens read from a genome. A codon names a member of a token kind
//! when it lies in that kind's range.

use vstd::prelude::*;

verus! {

/// What a value-reading condition compares, when a `Value` reads a creature.
#[derive(Debug, Copy, Clone, PartialEq, Eq, Structural)]
pub enum Attribute {
    Energy,
    Signal,
    Generation,
    Kills,
    Survived,
    NumChildren,
    TopItem,
}

/// An item in a creature's inventory; its value is its tier, 1 to 4.
#[derive(Debug, Copy, Clone, PartialEq, Eq, Structural)]
pub enum Item {
    Food,
    GoodFood,
    BetterFood,
    ExcellentFood,
}

/// A colour that a creature broadcasts; its value is 1 to 6.
#[derive(Debug, Copy, Clone, PartialEq, Eq, Structural)]
pub enum Signal {
    Red,
    Yellow,
    Blue,
    Purple,
    Orange,
    Green,
}

/// The kind of damage an attack deals or a defence blocks.
#[derive(Debug, Copy, Clone, PartialEq, Eq, Structural)]
pub enum DamageType {
    Fire,
    Ice,
    Electricity,
}

/// The kinds of token that the decoder reads.
#[derive(Debug, Copy, Clone, PartialEq, Eq, Structural)]
pub enum TokenKind {
    Condition,
    Value,
    Action,
    Attribute,
    Signal,
    DamageType,
    Literal,
}

/// Smallest codon that names a token of kind `k`.
pub open spec fn token_low(k: TokenKind) -> int {
    match k {
        TokenKind::Signal => 1,
        _ => 0,
    }
}

/// Largest codon that names a token of kind `k`.
pub open spec fn token_high(k: TokenKind) -> int {
    match k {
        TokenKind::Condition => 7,
        TokenKind::Value => 3,
        TokenKind::Action => 8,
        TokenKind::Attribute => 6,
        TokenKind::Signal => 6,
        TokenKind::DamageType => 2,
        TokenKind::Literal => 127,
    }
}

/// The token that codon `x` names in kind `k`, if any.
pub open spec fn token_spec(k: TokenKind, x: i8) -> Option<u8> {
    if token_low(k) <= x as int && x as int <= token_high(k) {
        Some(x as u8)
    } else {
        None
    }
}

/// Reads codon `x` as a token of kind `k`.
pub fn token_of(k: TokenKind, x: i8) -> (r: Option<u8>)
    ensures
        r == token_spec(k, x),
{
    let (low, high): (i8, i8) = match k {
        TokenKind::Condition => (0, 7),
        TokenKind::Value => (0, 3),
        TokenKind::Action => (0, 8),
        TokenKind::Attribute => (0, 6),
        TokenKind::Signal => (1, 6),
        TokenKind::DamageType => (0, 2),
        TokenKind::Literal => (0, 127),
    };
    if low <= x && x <= high {
        Some(x as u8)
    } else {
        None
    }
}

impl Attribute {
    pub open spec fn from_spec(t: u8) -> Attribute {
        if t == 0 {
            Attribute::Energy
        } else if t == 1 {
            Attribute::Signal
        } else if t == 2 {
            Attribute::Generation
        } else if t == 3 {
            Attribute::Kills
        } else if t == 4 {
            Attribute::Survived
        } else if t == 5 {
            Attribute::NumChildren
        } else {
            Attribute::TopItem
        }
    }

    pub fn from_token(t: u8) -> (r: Attribute)
        ensures
            r == Attribute::from_spec(t),
    {
        if t == 0 {
            Attribute::Energy
        } else if t == 1 {
            Attribute::Signal
        } else if t == 2 {
            Attribute::Generation
        } else if t == 3 {
            Attribute::Kills
        } else if t == 4 {
            Attribute::Survived
        } else if t == 5 {
            Attribute::NumChildren
        } else {
            Attribute::TopItem
        }
    }
}

impl Item {
    /// The tier of an item, 1 to 4.
    pub open spec fn value_spec(self) -> nat {
        match self {
            Item::Food => 1,
            Item::GoodFood => 2,
            Item::BetterFood => 3,
            Item::ExcellentFood => 4,
        }
    }

    pub fn value(&self) -> (r: usize)
        ensures
            r == self.value_spec(),
    {
        match self {
            Item::Food => 1,
            Item::GoodFood => 2,
            Item::BetterFood => 3,
            Item::ExcellentFood => 4,
        }
    }
}

impl Signal {
    pub open spec fn from_spec(t: u8) -> Signal {
        if t <= 1 {
            Signal::Red
        } else if t == 2 {
            Signal::Yellow
        } else if t == 3 {
            Signal::Blue
        } else if t == 4 {
            Signal::Purple
        } else if t == 5 {
            Signal::Orange
        } else {
            Signal::Green
        }
    }

    pub fn from_token(t: u8) -> (r: Signal)
        ensures
            r == Signal::from_spec(t),
    {
        if t <= 1 {
            Signal::Red
        } else if t == 2 {
            Signal::Yellow
        } else if t == 3 {
            Signal::Blue
        } else if t == 4 {
            Signal::Purple
        } else if t == 5 {
            Signal::Orange
        } else {
            Signal::Green
        }
    }

    /// The number a signal shows as an attribute, 1 to 6.
    pub open spec fn value_spec(self) -> nat {
        match self {
            Signal::Red => 1,
            Signal::Yellow => 2,
            Signal::Blue => 3,
            Signal::Purple => 4,
            Signal::Orange => 5,
            Signal::Green => 6,
        }
    }

    pub fn value(&self) -> (r: usize)
        ensures
            r == self.value_spec(),
    {
        match self {
            Signal::Red => 1,
            Signal::Yellow => 2,
            Signal::Blue => 3,
            Signal::Purple => 4,
            Signal::Orange => 5,
            Signal::Green => 6,
        }
    }
}

impl DamageType {
    pub open spec fn from_spec(t: u8) -> DamageType {
        if t == 0 {
            DamageType::Fire
        } else if t == 1 {
            DamageType::Ice
        } else {
            DamageType::Electricity
        }
    }

    pub fn from_token(t: u8) -> (r: DamageType)
        ensures
            r == DamageType::from_spec(t),
    {
        if t == 0 {
            DamageType::Fire
        } else if t == 1 {
            DamageType::Ice
        } else {
            DamageType::Electricity
        }
    }
}

} // verus!
