//! The state of one game, and the actions that a turn applies to it.

use vstd::prelude::*;
use crate::comodity::{Comodity, COMODITY_COUNT};
use crate::player::{
    lemma_total_prefix, lemma_total_step, total, Building, ComoditySale, Player, ProductionCard,
    Railroad, Town,
};
use crate::price::ComodityPrice;

verus! {

/// The market, the decks, the players in turn order, and whose turn it is.
#[derive(Debug)]
pub struct GameState {
    pub market_place: [ComodityPrice; COMODITY_COUNT],
    pub town_deck: Vec<Town>,
    pub building_deck: Vec<Building>,
    pub railroad_deck: Vec<Railroad>,
    pub players: Vec<Player>,
    pub current_player_turn: usize,
}

/// The price a comodity has on the board as a game starts. `Any` is not
/// traded: its bounds and its price are zero.
pub open spec fn board_price(c: Comodity) -> ComodityPrice {
    match c {
        Comodity::Any => ComodityPrice { min: 0, max: 0, price: 0 },
        Comodity::Wheat => ComodityPrice { min: 1, max: 12, price: 1 },
        Comodity::Wood => ComodityPrice { min: 1, max: 12, price: 1 },
        Comodity::Iron => ComodityPrice { min: 2, max: 13, price: 2 },
        Comodity::Coal => ComodityPrice { min: 2, max: 13, price: 2 },
        Comodity::Goods => ComodityPrice { min: 3, max: 14, price: 3 },
        Comodity::Luxury => ComodityPrice { min: 3, max: 14, price: 3 },
    }
}

/// Whose turn follows that of player `turn`, among `players` players.
pub open spec fn next_turn(turn: int, players: int) -> int {
    (turn + 1) % players
}

/// The smaller of two amounts.
pub open spec fn at_most(amount: int, supply: int) -> int {
    if amount <= supply {
        amount
    } else {
        supply
    }
}

impl GameState {
    /// The market's entry for `c`.
    pub open spec fn price_of(self, c: Comodity) -> ComodityPrice {
        self.market_place[c.ordinal()]
    }

    /// The player whose turn it is.
    pub open spec fn current(self) -> Player {
        self.players@[self.current_player_turn as int]
    }

    /// There is a player, the turn points at one, and every price lies
    /// between its bounds.
    pub open spec fn wf(self) -> bool {
        &&& self.players@.len() >= 1
        &&& self.current_player_turn < self.players@.len()
        &&& forall|c: Comodity| (#[trigger] self.price_of(c)).wf()
    }

    /// The decks, the turn, the number of players and every player but the
    /// current one are as in `before`, and the current one has kept its
    /// estate.
    pub open spec fn bystanders_kept(self, before: GameState) -> bool {
        &&& self.town_deck == before.town_deck
        &&& self.building_deck == before.building_deck
        &&& self.railroad_deck == before.railroad_deck
        &&& self.current_player_turn == before.current_player_turn
        &&& self.players@.len() == before.players@.len()
        &&& forall|i: int|
            0 <= i < self.players@.len() && i != self.current_player_turn
                ==> #[trigger] self.players@[i] == before.players@[i]
        &&& self.current().same_estate(before.current())
    }

    /// This state is `before` with `card` applied for the current player:
    /// the holdings have grown by the totals of `card.produce`, the prices
    /// have risen by the totals of `card.inflate`, and nothing else differs.
    pub open spec fn is_produce_of(self, before: GameState, card: ProductionCard) -> bool {
        &&& self.bystanders_kept(before)
        &&& self.current().money == before.current().money
        &&& forall|c: Comodity|
            #[trigger] self.current().holding(c) == before.current().holding(c) + total(
                card.produce@,
                c,
            )
        &&& forall|c: Comodity|
            #[trigger] self.price_of(c) == before.price_of(c).inflated(total(card.inflate@, c))
    }

    /// How many units a sale moves: the amount asked for, or the whole
    /// holding where that is less.
    pub open spec fn units_sold(self, sale: ComoditySale) -> int {
        at_most(sale.amount as int, self.current().holding(sale.comodity) as int)
    }

    /// What a sale pays: the units sold, at the price that stands now.
    pub open spec fn payment(self, sale: ComoditySale) -> int {
        self.units_sold(sale) * self.price_of(sale.comodity).price
    }

    /// This state is `before` with `sale` applied for the current player:
    /// the units sold have left the holding and are paid for at the price of
    /// `before`, that price has fallen by the amount asked for, and nothing
    /// else differs.
    pub open spec fn is_sale_of(self, before: GameState, sale: ComoditySale) -> bool {
        &&& self.bystanders_kept(before)
        &&& self.current().money == before.current().money + before.payment(sale)
        &&& self.current().holding(sale.comodity) == before.current().holding(sale.comodity)
            - before.units_sold(sale)
        &&& forall|c: Comodity|
            c != sale.comodity ==> #[trigger] self.current().holding(c)
                == before.current().holding(c)
        &&& self.price_of(sale.comodity) == before.price_of(sale.comodity).deflated(
            sale.amount as int,
        )
        &&& forall|c: Comodity|
            c != sale.comodity ==> #[trigger] self.price_of(c) == before.price_of(c)
    }

    /// A game with no player yet, every price at zero.
    pub fn new() -> (game: GameState)
        ensures
            game.players@.len() == 0,
            game.current_player_turn == 0,
            game.town_deck@.len() == 0,
            game.building_deck@.len() == 0,
            game.railroad_deck@.len() == 0,
            forall|c: Comodity|
                #[trigger] game.price_of(c) == (ComodityPrice { min: 0, max: 0, price: 0 }),
    {
        let zero = ComodityPrice { min: 0, max: 0, price: 0 };
        GameState {
            market_place: [zero, zero, zero, zero, zero, zero, zero],
            town_deck: Vec::new(),
            building_deck: Vec::new(),
            railroad_deck: Vec::new(),
            players: Vec::new(),
            current_player_turn: 0,
        }
    }
}

/// Whether the game is well formed.
pub fn game_is_well_formed(game: &GameState) -> (b: bool)
    ensures
        b == game.wf(),
{
    if game.players.len() == 0 || game.current_player_turn >= game.players.len() {
        return false;
    }
    let mut i: usize = 0;
    while i < COMODITY_COUNT
        invariant
            0 <= i <= COMODITY_COUNT,
            forall|c: Comodity| c.ordinal() < i ==> (#[trigger] game.price_of(c)).wf(),
        decreases COMODITY_COUNT - i,
    {
        let entry = game.market_place[i];
        if entry.min > entry.price || entry.price > entry.max {
            assert(!game.price_of(Comodity::at(i as int)).wf());
            return false;
        }
        i += 1;
    }
    true
}

/// Whether `card` can be applied for the current player with every holding
/// still fitting 32 bits.
pub fn game_can_produce(game: &GameState, card: &ProductionCard) -> (b: bool)
    requires
        game.current_player_turn < game.players@.len(),
    ensures
        b == forall|c: Comodity|
            #[trigger] game.current().holding(c) + total(card.produce@, c) <= u32::MAX,
{
    let mut held = game.players[game.current_player_turn].comodities;
    let mut i: usize = 0;
    while i < card.produce.len()
        invariant
            0 <= i <= card.produce@.len(),
            game.current_player_turn < game.players@.len(),
            forall|c: Comodity|
                #[trigger] held[c.ordinal()] == game.current().holding(c) + total(
                    card.produce@.take(i as int),
                    c,
                ),
        decreases card.produce@.len() - i,
    {
        let p = card.produce[i];
        let slot = p.0.index();
        proof {
            assert forall|c: Comodity|
                total(card.produce@.take(i + 1), c) == total(card.produce@.take(i as int), c)
                    + if p.0 == c {
                    p.1 as int
                } else {
                    0
                } by {
                lemma_total_step(card.produce@, i as int, c);
            }
            assert(held[p.0.ordinal()] == held[slot as int]);
        }
        match held[slot].checked_add(p.1) {
            Some(sum) => {
                let ghost before = held;
                held[slot] = sum;
                proof {
                    assert forall|c: Comodity|
                        #[trigger] held[c.ordinal()] == before[c.ordinal()] + if p.0 == c {
                            p.1 as int
                        } else {
                            0
                        } by {
                        assert(c.ordinal() == slot <==> c == p.0);
                    }
                }
            },
            None => {
                proof {
                    lemma_total_prefix(card.produce@, i + 1, p.0);
                    assert(game.current().holding(p.0) + total(card.produce@, p.0) > u32::MAX);
                }
                return false;
            },
        }
        i += 1;
    }
    assert(card.produce@.take(i as int) == card.produce@);
    assert forall|c: Comodity|
        #[trigger] game.current().holding(c) + total(card.produce@, c) <= u32::MAX by {
        assert(held[c.ordinal()] <= u32::MAX);
    }
    true
}

/// Whether what `sale` pays can be added to the current player's money with
/// the sum still fitting 32 bits.
pub fn game_can_sell(game: &GameState, sale: &ComoditySale) -> (b: bool)
    requires
        game.current_player_turn < game.players@.len(),
    ensures
        b == (game.current().money + game.payment(*sale) <= u32::MAX),
{
    let player = game_current_player(game);
    let supply = player.comodity_supply(sale.comodity);
    let units: u64 = if sale.amount <= supply {
        sale.amount as u64
    } else {
        supply as u64
    };
    let price = game_comodity_price(game, sale.comodity) as u64;
    assert(units * price <= 0xFFFF_FFFF * 0xFFFF_FFFF) by (nonlinear_arith)
        requires
            0 <= units <= 0xFFFF_FFFF,
            0 <= price <= 0xFFFF_FFFF,
    ;
    let total: u64 = player.money as u64 + units * price;
    total <= 0xFFFF_FFFF
}

/// The current price of `c`.
pub fn game_comodity_price(game: &GameState, c: Comodity) -> (price: u32)
    ensures
        price == game.price_of(c).price,
{
    let result = game.market_place[c.index()];
    result.price
}

/// The player whose turn it is.
pub fn game_current_player(game: &GameState) -> (player: &Player)
    requires
        game.current_player_turn < game.players@.len(),
    ensures
        *player == game.current(),
{
    &game.players[game.current_player_turn]
}

/// The player whose turn it is, to be changed in place. Nothing else in the
/// game changes through it.
pub fn game_current_player_mut(game: &mut GameState) -> (player: &mut Player)
    requires
        old(game).current_player_turn < old(game).players@.len(),
    ensures
        *player == old(game).current(),
        final(game).players@ == old(game).players@.update(
            old(game).current_player_turn as int,
            *final(player),
        ),
        final(game).market_place == old(game).market_place,
        final(game).town_deck == old(game).town_deck,
        final(game).building_deck == old(game).building_deck,
        final(game).railroad_deck == old(game).railroad_deck,
        final(game).current_player_turn == old(game).current_player_turn,
{
    let turn = game.current_player_turn;
    &mut game.players[turn]
}

/// Sets every price to its start on the board.
pub fn init_market_place(game: &mut GameState)
    ensures
        forall|c: Comodity| #[trigger] final(game).price_of(c) == board_price(c),
        forall|c: Comodity| (#[trigger] final(game).price_of(c)).wf(),
        final(game).players == old(game).players,
        final(game).current_player_turn == old(game).current_player_turn,
        final(game).town_deck == old(game).town_deck,
        final(game).building_deck == old(game).building_deck,
        final(game).railroad_deck == old(game).railroad_deck,
{
    game.market_place[Comodity::Wheat.index()] = ComodityPrice::new(1, 12);
    game.market_place[Comodity::Wood.index()] = ComodityPrice::new(1, 12);
    game.market_place[Comodity::Iron.index()] = ComodityPrice::new(2, 13);
    game.market_place[Comodity::Coal.index()] = ComodityPrice::new(2, 13);
    game.market_place[Comodity::Goods.index()] = ComodityPrice::new(3, 14);
    game.market_place[Comodity::Luxury.index()] = ComodityPrice::new(3, 14);
    game.market_place[Comodity::Any.index()] = ComodityPrice::new(0, 0);
}

/// Passes the turn to the next player, and from the last to the first.
pub fn advance_turn(game: &mut GameState)
    requires
        old(game).wf(),
    ensures
        final(game).current_player_turn == next_turn(
            old(game).current_player_turn as int,
            old(game).players@.len() as int,
        ),
        final(game).players == old(game).players,
        final(game).market_place == old(game).market_place,
        final(game).town_deck == old(game).town_deck,
        final(game).building_deck == old(game).building_deck,
        final(game).railroad_deck == old(game).railroad_deck,
        final(game).wf(),
{
    let count = game.players.len();
    game.current_player_turn = (1 + game.current_player_turn) % count;
    assert(forall|c: Comodity| #[trigger] game.price_of(c) == old(game).price_of(c));
}

/// Applies a production card for the current player: every line of
/// `produce` is added to the player's holdings, and every line of `inflate`
/// raises a price. Lines for one comodity add up. A holding that would not
/// fit the integer is outside what the function accepts.
pub fn game_action_produce(game: &mut GameState, prod: &ProductionCard)
    requires
        old(game).wf(),
        forall|c: Comodity|
            #[trigger] old(game).current().holding(c) + total(prod.produce@, c) <= u32::MAX,
    ensures
        final(game).wf(),
        final(game).is_produce_of(*old(game), *prod),
{
    let turn = game.current_player_turn;
    let mut i: usize = 0;
    while i < prod.produce.len()
        invariant
            0 <= i <= prod.produce@.len(),
            turn == old(game).current_player_turn,
            old(game).wf(),
            forall|c: Comodity|
                #[trigger] old(game).current().holding(c) + total(prod.produce@, c) <= u32::MAX,
            game.bystanders_kept(*old(game)),
            game.market_place == old(game).market_place,
            game.current().money == old(game).current().money,
            forall|c: Comodity|
                #[trigger] game.current().holding(c) == old(game).current().holding(c) + total(
                    prod.produce@.take(i as int),
                    c,
                ),
        decreases prod.produce@.len() - i,
    {
        let p = prod.produce[i];
        let slot = p.0.index();
        proof {
            lemma_total_prefix(prod.produce@, i + 1, p.0);
            assert forall|c: Comodity|
                total(prod.produce@.take(i + 1), c) == total(prod.produce@.take(i as int), c)
                    + if p.0 == c {
                    p.1 as int
                } else {
                    0
                } by {
                lemma_total_step(prod.produce@, i as int, c);
            }
            assert(game.current().holding(p.0) == game.players@[turn as int].comodities[slot as int]);
        }
        let ghost before = *game;
        let held = game.players[turn].comodities[slot];
        game.players[turn].comodities[slot] = held + p.1;
        proof {
            assert forall|c: Comodity|
                #[trigger] game.current().holding(c) == before.current().holding(c) + if p.0
                    == c {
                    p.1 as int
                } else {
                    0
                } by {
                assert(c.ordinal() == slot <==> c == p.0);
            }
        }
        i += 1;
    }
    assert(prod.produce@.take(i as int) == prod.produce@);
    assert forall|c: Comodity| (#[trigger] game.price_of(c)).wf() by {
        assert(old(game).price_of(c).wf());
    }

    let mut j: usize = 0;
    while j < prod.inflate.len()
        invariant
            0 <= j <= prod.inflate@.len(),
            old(game).wf(),
            game.bystanders_kept(*old(game)),
            forall|c: Comodity| (#[trigger] game.price_of(c)).wf(),
            game.current().money == old(game).current().money,
            forall|c: Comodity|
                #[trigger] game.current().holding(c) == old(game).current().holding(c) + total(
                    prod.produce@,
                    c,
                ),
            forall|c: Comodity|
                #[trigger] game.price_of(c) == old(game).price_of(c).inflated(
                    total(prod.inflate@.take(j as int), c),
                ),
        decreases prod.inflate@.len() - j,
    {
        let p = prod.inflate[j];
        let slot = p.0.index();
        proof {
            assert forall|c: Comodity|
                total(prod.inflate@.take(j + 1), c) == total(prod.inflate@.take(j as int), c)
                    + if p.0 == c {
                    p.1 as int
                } else {
                    0
                } && total(prod.inflate@.take(j as int), c) >= 0 by {
                lemma_total_step(prod.inflate@, j as int, c);
                lemma_total_prefix(prod.inflate@, j as int, c);
            }
            assert(old(game).price_of(p.0).wf());
        }
        let ghost before = *game;
        game.market_place[slot].inflate(p.1);
        proof {
            assert forall|c: Comodity|
                #[trigger] game.price_of(c) == (if p.0 == c {
                    before.price_of(c).inflated(p.1 as int)
                } else {
                    before.price_of(c)
                }) by {
                assert(c.ordinal() == slot <==> c == p.0);
            }
            assert forall|c: Comodity| (#[trigger] game.price_of(c)).wf() by {
                assert(before.price_of(c).wf());
            }
        }
        j += 1;
    }
    assert(prod.inflate@.take(j as int) == prod.inflate@);
}

/// Sells for the current player. The player is paid the price that stands
/// before the sale, for as many units as are held and asked for: a request
/// for more than the holding sells the whole holding. The market then
/// lowers the price by the amount asked for, sold or not. A payment that
/// would not fit the integer is outside what the function accepts.
pub fn game_action_sell(game: &mut GameState, sale: &ComoditySale)
    requires
        old(game).wf(),
        old(game).current().money + old(game).payment(*sale) <= u32::MAX,
    ensures
        final(game).wf(),
        final(game).is_sale_of(*old(game), *sale),
        sale.amount > old(game).current().holding(sale.comodity) ==> {
            &&& final(game).current().holding(sale.comodity) == 0
            &&& final(game).current().money == old(game).current().money + old(
                game,
            ).current().holding(sale.comodity) * old(game).price_of(sale.comodity).price
        },
{
    let market_price = game_comodity_price(game, sale.comodity);
    let turn = game.current_player_turn;
    let slot = sale.comodity.index();
    let supply = game.players[turn].comodities[slot];
    let new_supply: u32 = match supply.checked_sub(sale.amount) {
        Some(s) => s,
        None => 0,
    };
    let actual_amount = supply - new_supply;
    assert(actual_amount == at_most(sale.amount as int, supply as int));
    assert(actual_amount * market_price >= 0) by (nonlinear_arith)
        requires actual_amount >= 0, market_price >= 0;
    let money = game.players[turn].money;
    game.players[turn].money = money + actual_amount * market_price;
    game.players[turn].comodities[slot] = new_supply;
    let ghost before = *game;
    game.market_place[slot].deflate(sale.amount);
    proof {
        assert forall|c: Comodity|
            #[trigger] game.price_of(c) == (if sale.comodity == c {
                before.price_of(c).deflated(sale.amount as int)
            } else {
                before.price_of(c)
            }) by {
            assert(c.ordinal() == slot <==> c == sale.comodity);
        }
        assert forall|c: Comodity| (#[trigger] game.price_of(c)).wf() by {
            assert(old(game).price_of(c).wf());
        }
        assert forall|c: Comodity| c != sale.comodity implies #[trigger] game.current().holding(c)
            == old(game).current().holding(c) by {
            assert(c.ordinal() == slot <==> c == sale.comodity);
        }
    }
}

} // verus!
