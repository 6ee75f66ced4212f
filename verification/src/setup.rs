//! Setting a game up: the board's prices and the players in turn order.

use vstd::prelude::*;
use crate::comodity::Comodity;
use crate::game::{board_price, init_market_place, GameState};
use crate::player::Player;

verus! {

/// The name of the player that the game itself plays, seated last.
pub open spec fn bot_name() -> Seq<char> {
    "Racoon Bot"@
}

/// Seats a new player for each name, in the order given, and the bot after
/// them. Whoever sat already stays seated, before the new ones.
pub fn init_players(game: &mut GameState, names: &Vec<String>)
    ensures
        final(game).players@.len() == old(game).players@.len() + names@.len() + 1,
        forall|i: int|
            0 <= i < old(game).players@.len() ==> #[trigger] final(game).players@[i] == old(
                game,
            ).players@[i],
        forall|i: int|
            old(game).players@.len() <= i < old(game).players@.len() + names@.len() ==> (
            #[trigger] final(game).players@[i]).is_fresh(names@[i - old(game).players@.len()]@),
        final(game).players@.last().is_fresh(bot_name()),
        final(game).market_place == old(game).market_place,
        final(game).town_deck == old(game).town_deck,
        final(game).building_deck == old(game).building_deck,
        final(game).railroad_deck == old(game).railroad_deck,
        final(game).current_player_turn == old(game).current_player_turn,
{
    let ghost seated = game.players@.len();
    let mut i: usize = 0;
    while i < names.len()
        invariant
            0 <= i <= names@.len(),
            seated == old(game).players@.len(),
            game.players@.len() == seated + i,
            forall|k: int| 0 <= k < seated ==> #[trigger] game.players@[k] == old(game).players@[k],
            forall|k: int|
                seated <= k < seated + i ==> (#[trigger] game.players@[k]).is_fresh(
                    names@[k - seated]@,
                ),
            game.market_place == old(game).market_place,
            game.town_deck == old(game).town_deck,
            game.building_deck == old(game).building_deck,
            game.railroad_deck == old(game).railroad_deck,
            game.current_player_turn == old(game).current_player_turn,
        decreases names@.len() - i,
    {
        let player = Player::new(names[i].clone());
        game.players.push(player);
        assert(game.players@[seated + i] == player);
        i += 1;
    }
    game.players.push(Player::new("Racoon Bot".to_owned()));
}

/// A game ready for its first turn: the board's prices, a player for each
/// name and the bot behind them, and the turn with the first player.
pub fn new_game(names: &Vec<String>) -> (game: GameState)
    ensures
        game.wf(),
        game.current_player_turn == 0,
        game.players@.len() == names@.len() + 1,
        forall|i: int| 0 <= i < names@.len() ==> (#[trigger] game.players@[i]).is_fresh(names@[i]@),
        game.players@.last().is_fresh(bot_name()),
        forall|c: Comodity| #[trigger] game.price_of(c) == board_price(c),
        game.town_deck@.len() == 0,
        game.building_deck@.len() == 0,
        game.railroad_deck@.len() == 0,
{
    let mut game = GameState::new();
    init_market_place(&mut game);
    let ghost priced = game;
    init_players(&mut game, names);
    assert forall|c: Comodity| #[trigger] game.price_of(c) == board_price(c) by {
        assert(priced.price_of(c) == board_price(c));
    }
    game
}

} // verus!
