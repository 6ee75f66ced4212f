//! One turn: what a player may do, what a line of input adds to an action
//! that is being entered, and the step that applies an action and passes
//! the turn.

use vstd::prelude::*;
use crate::comodity::Comodity;
use crate::game::{
    advance_turn, game_action_produce, game_action_sell, game_can_produce, game_can_sell,
    game_is_well_formed, next_turn, GameState,
};
use crate::parse::{chars_of, parsed, part_is, ParseError};
use crate::player::{total, ComoditySale, Player, Production, ProductionCard};

verus! {

/// An entry of the turn menu.
#[derive(Copy, Clone, Debug, PartialEq, Eq, Structural)]
pub enum MenuChoice {
    Produce,
    Sell,
    BuyBuilding,
    BuyRailroad,
    AuctionRailroad,
}

/// An action that the game does not play out yet.
#[derive(Copy, Clone, Debug, PartialEq, Eq, Structural)]
pub enum Unimplemented {
    Building,
    Railroad,
    Auction,
}

/// What a player does with a turn.
#[derive(Debug)]
pub enum Action {
    Produce(ProductionCard),
    Sell(ComoditySale),
    Unimplemented(Unimplemented),
}

/// What a line of input did to the action that is being entered.
#[derive(Copy, Clone, Debug, PartialEq, Eq, Structural)]
pub enum LineOutcome {
    /// The line was `done`: nothing more is to come.
    Finished,
    /// The line was taken into the action.
    Accepted,
    /// The line asks to sell more than the player holds of the comodity; the
    /// number is the holding.
    Short(Comodity, u32),
    /// The line is not a comodity and an amount.
    Refused(ParseError),
}

/// The menu entry that a line picks, by its number.
pub open spec fn choice_named(line: Seq<char>) -> Option<MenuChoice> {
    if line == "1"@ {
        Some(MenuChoice::Produce)
    } else if line == "2"@ {
        Some(MenuChoice::Sell)
    } else if line == "3"@ {
        Some(MenuChoice::BuyBuilding)
    } else if line == "4"@ {
        Some(MenuChoice::BuyRailroad)
    } else if line == "5"@ {
        Some(MenuChoice::AuctionRailroad)
    } else {
        None
    }
}

/// What a line asks of a game that is under way.
#[derive(Copy, Clone, Debug, PartialEq, Eq, Structural)]
pub enum GameCommand {
    /// `end`: the game is over.
    End,
    /// `show`: the state of the game is to be shown.
    Show,
    /// Anything else: the next turn is played.
    NextTurn,
}

/// What a line asks before a game is under way.
#[derive(Copy, Clone, Debug, PartialEq, Eq, Structural)]
pub enum LobbyCommand {
    /// `end`: the program is to close.
    End,
    /// `new`: a new game starts.
    New,
    /// Anything else.
    Unknown,
}

/// The command that a line gives to a game under way.
pub open spec fn game_command_named(line: Seq<char>) -> GameCommand {
    if line == "end"@ {
        GameCommand::End
    } else if line == "show"@ {
        GameCommand::Show
    } else {
        GameCommand::NextTurn
    }
}

/// The command that a line gives before a game is under way.
pub open spec fn lobby_command_named(line: Seq<char>) -> LobbyCommand {
    if line == "end"@ {
        LobbyCommand::End
    } else if line == "new"@ {
        LobbyCommand::New
    } else {
        LobbyCommand::Unknown
    }
}

/// The line that ends an entry.
pub open spec fn is_done(line: Seq<char>) -> bool {
    line == "done"@
}

/// The lines of `before` with one more line for `parsed(line)`, where the
/// line is a comodity and an amount.
pub open spec fn with_line(before: Seq<Production>, line: Seq<char>) -> Seq<Production> {
    match parsed(line) {
        Ok((c, amount)) => before.push(Production(c, amount)),
        Err(_) => before,
    }
}

/// What a line does to a list of a production card: `done` ends the entry,
/// a comodity and an amount are taken, anything else is refused.
pub open spec fn card_outcome(line: Seq<char>) -> LineOutcome {
    if is_done(line) {
        LineOutcome::Finished
    } else {
        match parsed(line) {
            Ok(_) => LineOutcome::Accepted,
            Err(e) => LineOutcome::Refused(e),
        }
    }
}

/// What a line does to a sale that `player` enters: `done` ends the entry,
/// a comodity and an amount within the holding are taken, an amount over
/// the holding is reported with the holding, anything else is refused.
pub open spec fn sale_outcome(player: Player, line: Seq<char>) -> LineOutcome {
    if is_done(line) {
        LineOutcome::Finished
    } else {
        match parsed(line) {
            Ok((c, amount)) => if amount <= player.holding(c) {
                LineOutcome::Accepted
            } else {
                LineOutcome::Short(c, player.holding(c))
            },
            Err(e) => LineOutcome::Refused(e),
        }
    }
}

/// Whether `input` is the line that ends an entry.
pub fn is_done_line(input: &str) -> (b: bool)
    ensures
        b == is_done(input@),
{
    let text = chars_of(input);
    assert(text@.subrange(0, text@.len() as int) == text@);
    part_is(&text, 0, text.len(), "done")
}

/// The command that `input` gives to a game under way.
pub fn game_command(input: &str) -> (r: GameCommand)
    ensures
        r == game_command_named(input@),
{
    let text = chars_of(input);
    let len = text.len();
    assert(text@.subrange(0, len as int) == text@);
    if part_is(&text, 0, len, "end") {
        GameCommand::End
    } else if part_is(&text, 0, len, "show") {
        GameCommand::Show
    } else {
        GameCommand::NextTurn
    }
}

/// The command that `input` gives before a game is under way.
pub fn lobby_command(input: &str) -> (r: LobbyCommand)
    ensures
        r == lobby_command_named(input@),
{
    let text = chars_of(input);
    let len = text.len();
    assert(text@.subrange(0, len as int) == text@);
    if part_is(&text, 0, len, "end") {
        LobbyCommand::End
    } else if part_is(&text, 0, len, "new") {
        LobbyCommand::New
    } else {
        LobbyCommand::Unknown
    }
}

/// The menu entry that `input` picks, if it picks one.
pub fn menu_choice(input: &str) -> (r: Option<MenuChoice>)
    ensures
        r == choice_named(input@),
{
    let text = chars_of(input);
    let len = text.len();
    assert(text@.subrange(0, len as int) == text@);
    if part_is(&text, 0, len, "1") {
        Some(MenuChoice::Produce)
    } else if part_is(&text, 0, len, "2") {
        Some(MenuChoice::Sell)
    } else if part_is(&text, 0, len, "3") {
        Some(MenuChoice::BuyBuilding)
    } else if part_is(&text, 0, len, "4") {
        Some(MenuChoice::BuyRailroad)
    } else if part_is(&text, 0, len, "5") {
        Some(MenuChoice::AuctionRailroad)
    } else {
        None
    }
}

impl ProductionCard {
    /// Takes one line of input for the list of comodities produced. Only a
    /// line that is a comodity and an amount changes the card: it is added
    /// at the end of `produce`.
    pub fn produce_line(&mut self, input: &str) -> (r: LineOutcome)
        ensures
            r == card_outcome(input@),
            final(self).inflate == old(self).inflate,
            final(self).produce@ == if r == LineOutcome::Accepted {
                with_line(old(self).produce@, input@)
            } else {
                old(self).produce@
            },
    {
        if is_done_line(input) {
            return LineOutcome::Finished;
        }
        match Comodity::parse_from_input(input) {
            Ok((comodity, amount)) => {
                self.produce.push(Production(comodity, amount));
                LineOutcome::Accepted
            },
            Err(e) => LineOutcome::Refused(e),
        }
    }

    /// Takes one line of input for the list of prices inflated. Only a line
    /// that is a comodity and an amount changes the card: it is added at the
    /// end of `inflate`.
    pub fn inflate_line(&mut self, input: &str) -> (r: LineOutcome)
        ensures
            r == card_outcome(input@),
            final(self).produce == old(self).produce,
            final(self).inflate@ == if r == LineOutcome::Accepted {
                with_line(old(self).inflate@, input@)
            } else {
                old(self).inflate@
            },
    {
        if is_done_line(input) {
            return LineOutcome::Finished;
        }
        match Comodity::parse_from_input(input) {
            Ok((comodity, amount)) => {
                self.inflate.push(Production(comodity, amount));
                LineOutcome::Accepted
            },
            Err(e) => LineOutcome::Refused(e),
        }
    }
}

/// Takes one line of input for a sale that `player` enters. Only a line
/// that is a comodity and an amount within the player's holding changes the
/// sale, which then asks for that comodity and amount.
pub fn sale_line(player: &Player, sale: &mut ComoditySale, input: &str) -> (r: LineOutcome)
    ensures
        r == sale_outcome(*player, input@),
        r == LineOutcome::Accepted ==> parsed(input@) == Ok::<(Comodity, u32), ParseError>(
            (final(sale).comodity, final(sale).amount),
        ),
        r != LineOutcome::Accepted ==> *final(sale) == *old(sale),
{
    if is_done_line(input) {
        return LineOutcome::Finished;
    }
    match Comodity::parse_from_input(input) {
        Ok((comodity, amount)) => {
            let supply = player.comodity_supply(comodity);
            if amount <= supply {
                sale.comodity = comodity;
                sale.amount = amount;
                LineOutcome::Accepted
            } else {
                LineOutcome::Short(comodity, supply)
            }
        },
        Err(e) => LineOutcome::Refused(e),
    }
}

impl Action {
    /// The action can be applied to `game` with every number still fitting
    /// 32 bits.
    pub open spec fn fits(self, game: GameState) -> bool {
        match self {
            Action::Produce(card) => forall|c: Comodity|
                #[trigger] game.current().holding(c) + total(card.produce@, c) <= u32::MAX,
            Action::Sell(sale) => game.current().money + game.payment(sale) <= u32::MAX,
            Action::Unimplemented(_) => true,
        }
    }
}

/// Whether `action` can be played on `game` as it stands: the game is
/// well formed and every number the action gives still fits 32 bits.
pub fn can_play(game: &GameState, action: &Action) -> (b: bool)
    ensures
        b == (game.wf() && action.fits(*game)),
{
    if !game_is_well_formed(game) {
        return false;
    }
    match action {
        Action::Produce(card) => game_can_produce(game, card),
        Action::Sell(sale) => game_can_sell(game, sale),
        Action::Unimplemented(_) => true,
    }
}

impl GameState {
    /// This state with the turn set to `turn`.
    pub open spec fn with_turn(self, turn: usize) -> GameState {
        GameState { current_player_turn: turn, ..self }
    }
}

/// Plays one turn: applies `action` for the current player, then passes the
/// turn on. An action that is not played out yet changes nothing but the
/// turn.
pub fn exec_player_turn(game: &mut GameState, action: &Action)
    requires
        old(game).wf(),
        action.fits(*old(game)),
    ensures
        final(game).wf(),
        final(game).current_player_turn == next_turn(
            old(game).current_player_turn as int,
            old(game).players@.len() as int,
        ),
        match *action {
            Action::Produce(card) => final(game).with_turn(
                old(game).current_player_turn,
            ).is_produce_of(*old(game), card),
            Action::Sell(sale) => final(game).with_turn(old(game).current_player_turn).is_sale_of(
                *old(game),
                sale,
            ),
            Action::Unimplemented(_) => final(game).with_turn(old(game).current_player_turn)
                == *old(game),
        },
{
    match action {
        Action::Produce(card) => game_action_produce(game, card),
        Action::Sell(sale) => game_action_sell(game, sale),
        Action::Unimplemented(_) => {},
    }
    let ghost applied = *game;
    advance_turn(game);
    assert(game.with_turn(old(game).current_player_turn) == applied);
}

} // verus!
