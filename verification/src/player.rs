//! Players, what they own, and the cards and requests that act on them.

use vstd::prelude::*;
use crate::comodity::{Comodity, COMODITY_COUNT};

verus! {

/// A town a player has bought.
#[derive(Debug)]
pub struct Town {
    pub comodity_purchase_type: Comodity,
    pub comodity_purchase_amount: u32,
    pub victory_points: u32,
}

/// A railroad a player has bought.
#[derive(Debug)]
pub struct Railroad {
    pub price: u32,
    pub victory_points: u32,
}

/// A building a player has bought.
#[derive(Debug)]
pub struct Building {
    pub price: u32,
    pub victory_points: u32,
}

/// One line of a production card: a comodity and an amount.
#[derive(Copy, Clone, Debug, PartialEq, Eq, Structural)]
pub struct Production(pub Comodity, pub u32);

/// What a produce action yields: comodities for the player, and price
/// rises for the market.
#[derive(Debug)]
pub struct ProductionCard {
    pub produce: Vec<Production>,
    pub inflate: Vec<Production>,
}

/// A request to sell `amount` units of one comodity.
#[derive(Copy, Clone, Debug, PartialEq, Eq, Structural)]
pub struct ComoditySale {
    pub comodity: Comodity,
    pub amount: u32,
}

/// The sum of the amounts that `effects` lists for comodity `c`.
pub open spec fn total(effects: Seq<Production>, c: Comodity) -> int
    decreases effects.len(),
{
    if effects.len() == 0 {
        0
    } else {
        total(effects.drop_last(), c) + if effects.last().0 == c {
            effects.last().1 as int
        } else {
            0
        }
    }
}

/// A total is never negative, and no prefix of a list totals more than the
/// whole list.
pub proof fn lemma_total_prefix(effects: Seq<Production>, n: int, c: Comodity)
    requires
        0 <= n <= effects.len(),
    ensures
        0 <= total(effects.take(n), c) <= total(effects, c),
    decreases effects.len(),
{
    if n == effects.len() {
        assert(effects.take(n) == effects);
        if effects.len() > 0 {
            lemma_total_prefix(effects.drop_last(), n - 1, c);
        }
    } else {
        assert(effects.drop_last().take(n) == effects.take(n));
        lemma_total_prefix(effects.drop_last(), n, c);
    }
}

/// Taking one more line adds that line's amount to its comodity's total.
pub proof fn lemma_total_step(effects: Seq<Production>, n: int, c: Comodity)
    requires
        0 <= n < effects.len(),
    ensures
        total(effects.take(n + 1), c) == total(effects.take(n), c) + if effects[n].0 == c {
            effects[n].1 as int
        } else {
            0
        },
{
    assert(effects.take(n + 1).drop_last() == effects.take(n));
}

impl ProductionCard {
    /// A card that yields nothing.
    pub fn new() -> (card: ProductionCard)
        ensures
            card.produce@.len() == 0,
            card.inflate@.len() == 0,
    {
        ProductionCard { produce: Vec::new(), inflate: Vec::new() }
    }
}

/// One player's name, money and holdings.
#[derive(Debug)]
pub struct Player {
    pub name: String,
    pub money: u32,
    pub comodities: [u32; COMODITY_COUNT],
    pub production: Vec<ProductionCard>,
    pub buildings: Vec<Building>,
    pub railroads: Vec<Railroad>,
    pub towns: Vec<Town>,
}

impl Player {
    /// How many units of `c` the player holds.
    pub open spec fn holding(self, c: Comodity) -> u32 {
        self.comodities[c.ordinal()]
    }

    /// A player as the game starts: the given name, and nothing else.
    pub open spec fn is_fresh(self, name: Seq<char>) -> bool {
        &&& self.name@ == name
        &&& self.money == 0
        &&& forall|c: Comodity| #[trigger] self.holding(c) == 0
        &&& self.production@.len() == 0
        &&& self.buildings@.len() == 0
        &&& self.railroads@.len() == 0
        &&& self.towns@.len() == 0
    }

    /// Both have the same name, cards, buildings, railroads and towns; money
    /// and holdings may differ.
    pub open spec fn same_estate(self, other: Player) -> bool {
        &&& self.name == other.name
        &&& self.production == other.production
        &&& self.buildings == other.buildings
        &&& self.railroads == other.railroads
        &&& self.towns == other.towns
    }

    /// A player with no money and no holdings.
    pub fn new(name: String) -> (p: Player)
        ensures
            p.name == name,
            p.is_fresh(name@),
    {
        Player {
            name,
            money: 0,
            comodities: [0, 0, 0, 0, 0, 0, 0],
            production: Vec::new(),
            buildings: Vec::new(),
            railroads: Vec::new(),
            towns: Vec::new(),
        }
    }

    /// How many units of `c` the player holds.
    pub fn comodity_supply(&self, c: Comodity) -> (n: u32)
        ensures
            n == self.holding(c),
    {
        self.comodities[c.index()]
    }
}

} // verus!
