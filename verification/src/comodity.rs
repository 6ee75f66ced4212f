//! The closed set of comodity kinds and their fixed name table.

use vstd::prelude::*;

verus! {

/// Number of comodity kinds, and so the length of every per-kind table.
pub const COMODITY_COUNT: usize = 7;

/// A kind of resource. `Any` is a placeholder that is never traded.
#[derive(Copy, Clone, Debug, PartialEq, Eq, Structural)]
pub enum Comodity {
    Any,
    Coal,
    Goods,
    Iron,
    Luxury,
    Wheat,
    Wood,
}

impl Comodity {
    /// Position of the kind in every per-kind table.
    pub open spec fn ordinal(self) -> int {
        match self {
            Comodity::Any => 0,
            Comodity::Coal => 1,
            Comodity::Goods => 2,
            Comodity::Iron => 3,
            Comodity::Luxury => 4,
            Comodity::Wheat => 5,
            Comodity::Wood => 6,
        }
    }

    /// The kind that stands at a table position.
    pub open spec fn at(i: int) -> Comodity {
        if i == 1 {
            Comodity::Coal
        } else if i == 2 {
            Comodity::Goods
        } else if i == 3 {
            Comodity::Iron
        } else if i == 4 {
            Comodity::Luxury
        } else if i == 5 {
            Comodity::Wheat
        } else if i == 6 {
            Comodity::Wood
        } else {
            Comodity::Any
        }
    }

    /// The kind's name as the players write it.
    pub open spec fn label(self) -> Seq<char> {
        match self {
            Comodity::Any => "Any"@,
            Comodity::Coal => "Coal"@,
            Comodity::Goods => "Goods"@,
            Comodity::Iron => "Iron"@,
            Comodity::Luxury => "Luxury"@,
            Comodity::Wheat => "Wheat"@,
            Comodity::Wood => "Wood"@,
        }
    }

    /// Position of the kind in every per-kind table.
    #[inline]
    pub fn index(&self) -> (i: usize)
        ensures
            i == self.ordinal(),
            i < COMODITY_COUNT,
    {
        match self {
            Comodity::Any => 0,
            Comodity::Coal => 1,
            Comodity::Goods => 2,
            Comodity::Iron => 3,
            Comodity::Luxury => 4,
            Comodity::Wheat => 5,
            Comodity::Wood => 6,
        }
    }

    /// The kind's name as the players write it.
    #[inline]
    pub fn name(&self) -> (s: &'static str)
        ensures
            s@ == self.label(),
    {
        match self {
            Comodity::Any => "Any",
            Comodity::Coal => "Coal",
            Comodity::Goods => "Goods",
            Comodity::Iron => "Iron",
            Comodity::Luxury => "Luxury",
            Comodity::Wheat => "Wheat",
            Comodity::Wood => "Wood",
        }
    }
}

impl Default for Comodity {
    /// The placeholder kind.
    fn default() -> (c: Comodity)
        ensures
            c == Comodity::Any,
    {
        Comodity::Any
    }
}

} // verus!
