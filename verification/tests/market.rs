use racoon_tycoon::comodity::{Comodity, COMODITY_COUNT};
use racoon_tycoon::game::{game_comodity_price, init_market_place, GameState};
use racoon_tycoon::price::ComodityPrice;

const KINDS: [Comodity; 7] = [
    Comodity::Any,
    Comodity::Coal,
    Comodity::Goods,
    Comodity::Iron,
    Comodity::Luxury,
    Comodity::Wheat,
    Comodity::Wood,
];

#[test]
fn new_price_starts_at_lower_bound() {
    let p = ComodityPrice::new(2, 13);
    assert_eq!(p, ComodityPrice { min: 2, max: 13, price: 2 });
}

#[test]
fn default_price_is_zero() {
    assert_eq!(ComodityPrice::default(), ComodityPrice { min: 0, max: 0, price: 0 });
}

#[test]
fn inflate_adds_within_bounds() {
    let mut p = ComodityPrice::new(1, 12);
    p.inflate(4);
    assert_eq!(p.price, 5);
    p.inflate(0);
    assert_eq!(p.price, 5);
    p.inflate(7);
    assert_eq!(p.price, 12);
}

#[test]
fn inflate_saturates_at_upper_bound() {
    let mut p = ComodityPrice::new(1, 12);
    p.inflate(12);
    assert_eq!(p.price, 12);
    p.inflate(1);
    assert_eq!(p.price, 12);
    assert_eq!((p.min, p.max), (1, 12));
}

#[test]
fn inflate_overflow_counts_as_upper_bound() {
    let mut p = ComodityPrice::new(3, 14);
    p.inflate(u32::MAX);
    assert_eq!(p.price, 14);
    let mut q = ComodityPrice { min: 0, max: u32::MAX, price: u32::MAX - 1 };
    q.inflate(5);
    assert_eq!(q.price, u32::MAX);
}

#[test]
fn deflate_subtracts_within_bounds() {
    let mut p = ComodityPrice { min: 2, max: 13, price: 10 };
    p.deflate(3);
    assert_eq!(p.price, 7);
    p.deflate(5);
    assert_eq!(p.price, 2);
}

#[test]
fn deflate_saturates_at_lower_bound() {
    let mut p = ComodityPrice { min: 2, max: 13, price: 5 };
    p.deflate(4);
    assert_eq!(p.price, 2);
    p.deflate(1);
    assert_eq!(p.price, 2);
}

#[test]
fn deflate_underflow_counts_as_lower_bound() {
    let mut p = ComodityPrice { min: 2, max: 13, price: 5 };
    p.deflate(6);
    assert_eq!(p.price, 2);
    p.deflate(u32::MAX);
    assert_eq!(p.price, 2);
    let mut q = ComodityPrice { min: 0, max: 9, price: 4 };
    q.deflate(5);
    assert_eq!(q.price, 0);
}

#[test]
fn price_stays_in_bounds_over_a_run_of_moves() {
    let moves: [(bool, u32); 10] = [
        (true, 3),
        (false, 1),
        (true, 100),
        (true, u32::MAX),
        (false, 7),
        (false, u32::MAX),
        (true, 0),
        (false, 0),
        (true, 11),
        (false, 12),
    ];
    let expected: [u32; 10] = [5, 4, 13, 13, 6, 2, 2, 2, 13, 2];
    let mut p = ComodityPrice::new(2, 13);
    for (k, (up, amount)) in moves.iter().enumerate() {
        if *up {
            p.inflate(*amount);
        } else {
            p.deflate(*amount);
        }
        assert!(p.min <= p.price && p.price <= p.max);
        assert_eq!((p.min, p.max), (2, 13));
        assert_eq!(p.price, expected[k]);
    }
}

#[test]
fn two_rises_are_one_rise_by_the_sum() {
    let mut a = ComodityPrice::new(1, 12);
    a.inflate(4);
    a.inflate(5);
    let mut b = ComodityPrice::new(1, 12);
    b.inflate(9);
    assert_eq!(a, b);
}

#[test]
fn board_prices_are_set() {
    let mut game = GameState::new();
    init_market_place(&mut game);
    let expected: [(Comodity, u32, u32); 7] = [
        (Comodity::Any, 0, 0),
        (Comodity::Wheat, 1, 12),
        (Comodity::Wood, 1, 12),
        (Comodity::Iron, 2, 13),
        (Comodity::Coal, 2, 13),
        (Comodity::Goods, 3, 14),
        (Comodity::Luxury, 3, 14),
    ];
    for (c, min, max) in expected.iter() {
        let entry = game.market_place[c.index()];
        assert_eq!(entry, ComodityPrice { min: *min, max: *max, price: *min });
        assert_eq!(game_comodity_price(&game, *c), *min);
    }
    assert!(game.players.is_empty());
    assert_eq!(game.current_player_turn, 0);
}

#[test]
fn empty_game_has_zero_prices() {
    let game = GameState::new();
    for c in KINDS.iter() {
        assert_eq!(game_comodity_price(&game, *c), 0);
    }
    assert!(game.town_deck.is_empty());
    assert!(game.building_deck.is_empty());
    assert!(game.railroad_deck.is_empty());
}

#[test]
fn kinds_have_their_table_positions() {
    assert_eq!(COMODITY_COUNT, 7);
    for (i, c) in KINDS.iter().enumerate() {
        assert_eq!(c.index(), i);
    }
    assert_eq!(Comodity::default(), Comodity::Any);
}

#[test]
fn kinds_have_their_names() {
    let names = ["Any", "Coal", "Goods", "Iron", "Luxury", "Wheat", "Wood"];
    for (i, c) in KINDS.iter().enumerate() {
        assert_eq!(c.name(), names[i]);
        assert_eq!(Comodity::from_name(names[i]), Some(*c));
        assert_eq!(Comodity::from_name(c.name()), Some(*c));
    }
}

#[test]
fn unknown_names_are_not_found() {
    for name in ["", "iron", "IRON", "Iro", "Irons", "Gold", " Iron", "Iron ", "Count", "Wóod"] {
        assert_eq!(Comodity::from_name(name), None);
    }
}
