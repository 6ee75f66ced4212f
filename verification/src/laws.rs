//! What holds of prices, turns and production over any run of calls.

use vstd::prelude::*;
use crate::comodity::{Comodity, COMODITY_COUNT};
use crate::game::next_turn;
use crate::parse::{
    comodity_named, decimal, digits_of, is_amount, is_digit, lemma_split_point_unique, no_dash,
    parsed, splits_at, ParseError,
};
use crate::player::{total, Production};
use crate::price::ComodityPrice;

verus! {

/// One change of a price.
pub enum PriceMove {
    Inflate(u32),
    Deflate(u32),
}

/// The price after the moves of `moves`, applied first to last.
pub open spec fn after_moves(p: ComodityPrice, moves: Seq<PriceMove>) -> ComodityPrice
    decreases moves.len(),
{
    if moves.len() == 0 {
        p
    } else {
        let q = after_moves(p, moves.drop_last());
        match moves.last() {
            PriceMove::Inflate(amount) => q.inflated(amount as int),
            PriceMove::Deflate(amount) => q.deflated(amount as int),
        }
    }
}

/// A price that lies between its bounds still does after any run of rises
/// and falls, whatever their amounts, and its bounds are the same.
pub proof fn lemma_price_stays_in_bounds(p: ComodityPrice, moves: Seq<PriceMove>)
    requires
        p.wf(),
    ensures
        after_moves(p, moves).wf(),
        after_moves(p, moves).min == p.min,
        after_moves(p, moves).max == p.max,
    decreases moves.len(),
{
    if moves.len() > 0 {
        lemma_price_stays_in_bounds(p, moves.drop_last());
    }
}

/// A rise by more than the room under the upper bound ends exactly at the
/// upper bound.
pub proof fn lemma_inflate_saturates(p: ComodityPrice, amount: u32)
    requires
        p.wf(),
        amount > p.max - p.price,
    ensures
        p.inflated(amount as int).price == p.max,
{
}

/// A fall by more than the room over the lower bound ends exactly at the
/// lower bound.
pub proof fn lemma_deflate_saturates(p: ComodityPrice, amount: u32)
    requires
        p.wf(),
        amount > p.price - p.min,
    ensures
        p.deflated(amount as int).price == p.min,
{
}

/// A rise never lowers a price and a fall never raises one.
pub proof fn lemma_moves_are_monotonic(p: ComodityPrice, amount: u32)
    requires
        p.wf(),
    ensures
        p.price <= p.inflated(amount as int).price <= p.max,
        p.min <= p.deflated(amount as int).price <= p.price,
{
}

/// A rise or a fall by nothing leaves the price as it is.
pub proof fn lemma_no_move_keeps_price(p: ComodityPrice)
    requires
        p.wf(),
    ensures
        p.inflated(0) == p,
        p.deflated(0) == p,
{
}

/// Two rises in a row are one rise by the sum of their amounts.
pub proof fn lemma_inflate_adds_up(p: ComodityPrice, first: u32, second: u32)
    requires
        p.wf(),
    ensures
        p.inflated(first as int).inflated(second as int) == p.inflated(first + second),
{
}

/// Whose turn it is after `n` turns have passed, from player `start`.
pub open spec fn turn_after(start: int, n: nat, players: int) -> int
    decreases n,
{
    if n == 0 {
        start
    } else {
        next_turn(turn_after(start, (n - 1) as nat, players), players)
    }
}

/// After `n` turns the turn has moved on by `n`, counted round the table:
/// from the first player it stands at `n` modulo the number of players.
pub proof fn lemma_turn_rotation(start: int, n: nat, players: int)
    requires
        players >= 1,
        0 <= start < players,
    ensures
        turn_after(start, n, players) == (start + n) % players,
        0 <= turn_after(start, n, players) < players,
        start == 0 ==> turn_after(start, n, players) == n % (players as nat),
    decreases n,
{
    if n == 0 {
        assert(start % players == start) by (nonlinear_arith)
            requires
                0 <= start < players,
        ;
    } else {
        lemma_turn_rotation(start, (n - 1) as nat, players);
        let before = start + n - 1;
        assert(((before % players) + 1) % players == (before + 1) % players) by (nonlinear_arith)
            requires
                players >= 1,
        ;
        assert(0 <= (start + n) % players < players) by (nonlinear_arith)
            requires
                players >= 1,
        ;
    }
}

/// With one player, the turn stays with that player.
pub proof fn lemma_single_player_keeps_turn(n: nat)
    ensures
        turn_after(0, n, 1) == 0,
{
    lemma_turn_rotation(0, n, 1);
}

/// A card of one line totals that line's amount for its comodity and
/// nothing for every other.
pub proof fn lemma_total_of_one_line(c: Comodity, amount: u32, other: Comodity)
    ensures
        total(seq![Production(c, amount)], other) == if other == c {
            amount as int
        } else {
            0
        },
{
    let line = seq![Production(c, amount)];
    assert(line.drop_last().len() == 0);
    assert(total(line.drop_last(), other) == 0);
    assert(line.last() == Production(c, amount));
}

/// The total of two lists, one after the other, is the sum of their totals.
pub proof fn lemma_total_is_additive(a: Seq<Production>, b: Seq<Production>, c: Comodity)
    ensures
        total(a + b, c) == total(a, c) + total(b, c),
    decreases b.len(),
{
    if b.len() == 0 {
        assert(a + b == a);
    } else {
        assert((a + b).drop_last() == a + b.drop_last());
        lemma_total_is_additive(a, b.drop_last(), c);
    }
}

/// Every kind has a table position of its own, and every position a kind.
pub proof fn lemma_kinds_fill_the_table(c: Comodity, i: int)
    requires
        0 <= i < COMODITY_COUNT,
    ensures
        0 <= c.ordinal() < COMODITY_COUNT,
        Comodity::at(c.ordinal()) == c,
        Comodity::at(i).ordinal() == i,
{
}

/// Every kind is found again by its own name: no two kinds share one.
pub proof fn lemma_name_finds_kind(c: Comodity)
    ensures
        comodity_named(c.label()) == Some(c),
{
    reveal_strlit("Any");
    reveal_strlit("Coal");
    reveal_strlit("Goods");
    reveal_strlit("Iron");
    reveal_strlit("Luxury");
    reveal_strlit("Wheat");
    reveal_strlit("Wood");
    assert("Any"@.len() == 3 && "Luxury"@.len() == 6);
    assert("Coal"@.len() == 4 && "Iron"@.len() == 4 && "Wood"@.len() == 4);
    assert("Goods"@.len() == 5 && "Wheat"@.len() == 5);
    assert("Coal"@[0] == 'C' && "Iron"@[0] == 'I' && "Wood"@[0] == 'W');
    assert("Goods"@[0] == 'G' && "Wheat"@[0] == 'W');
}

/// No kind has a `-` in its name.
pub proof fn lemma_names_have_no_dash(c: Comodity)
    ensures
        no_dash(c.label()),
{
    reveal_strlit("Any");
    reveal_strlit("Coal");
    reveal_strlit("Goods");
    reveal_strlit("Iron");
    reveal_strlit("Luxury");
    reveal_strlit("Wheat");
    reveal_strlit("Wood");
    let name = c.label();
    assert forall|i: int| 0 <= i < name.len() implies name[i] != '-' by {
        if i == 0 {
        } else if i == 1 {
        } else if i == 2 {
        } else if i == 3 {
        } else if i == 4 {
        } else if i == 5 {
        }
    }
}

/// A kind's name, a `-` and an amount read back as that kind and that
/// amount.
pub proof fn lemma_line_reads_back(c: Comodity, amount: Seq<char>)
    requires
        is_amount(amount),
    ensures
        parsed(c.label() + seq!['-'] + amount) == Ok::<(Comodity, u32), ParseError>(
            (c, decimal(digits_of(amount)) as u32),
        ),
{
    let name = c.label();
    let line = name + seq!['-'] + amount;
    let k = name.len() as int;
    lemma_names_have_no_dash(c);
    lemma_name_finds_kind(c);
    assert(line.take(k) =~= name);
    assert(line.skip(k + 1) =~= amount);
    assert(line[k] == '-');
    assert(no_dash(amount)) by {
        let digits = digits_of(amount);
        assert forall|i: int| 0 <= i < amount.len() implies amount[i] != '-' by {
            if digits.len() == amount.len() {
                assert(is_digit(digits[i]));
            } else if i > 0 {
                assert(is_digit(digits[i - 1]));
                assert(digits[i - 1] == amount[i]);
            }
        }
    }
    assert(splits_at(line, k));
    lemma_split_point_unique(line, k);
}

} // verus!
