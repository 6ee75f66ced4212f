use racoon_tycoon::comodity::Comodity;
use racoon_tycoon::parse::{amount_in, chars_of, comodity_in, part_is, ParseError};

#[test]
fn parses_a_comodity_and_an_amount() {
    assert_eq!(Comodity::parse_from_input("Iron-3"), Ok((Comodity::Iron, 3)));
    assert_eq!(Comodity::parse_from_input("Wheat-0"), Ok((Comodity::Wheat, 0)));
    assert_eq!(Comodity::parse_from_input("Luxury-12"), Ok((Comodity::Luxury, 12)));
    assert_eq!(Comodity::parse_from_input("Any-1"), Ok((Comodity::Any, 1)));
    assert_eq!(Comodity::parse_from_input("Coal-250"), Ok((Comodity::Coal, 250)));
    assert_eq!(Comodity::parse_from_input("Goods-9"), Ok((Comodity::Goods, 9)));
    assert_eq!(Comodity::parse_from_input("Wood-10"), Ok((Comodity::Wood, 10)));
}

#[test]
fn parses_a_plus_sign_and_leading_zeros() {
    assert_eq!(Comodity::parse_from_input("Iron-+3"), Ok((Comodity::Iron, 3)));
    assert_eq!(Comodity::parse_from_input("Iron-007"), Ok((Comodity::Iron, 7)));
    assert_eq!(Comodity::parse_from_input("Iron-+000"), Ok((Comodity::Iron, 0)));
    assert_eq!(
        Comodity::parse_from_input("Iron-000000000000000000001"),
        Ok((Comodity::Iron, 1))
    );
}

#[test]
fn parses_the_largest_amount_and_refuses_the_next() {
    assert_eq!(Comodity::parse_from_input("Iron-4294967295"), Ok((Comodity::Iron, u32::MAX)));
    assert_eq!(
        Comodity::parse_from_input("Iron-4294967296"),
        Err(ParseError::MalformedAmount)
    );
    assert_eq!(
        Comodity::parse_from_input("Iron-4294967300"),
        Err(ParseError::MalformedAmount)
    );
    assert_eq!(
        Comodity::parse_from_input("Iron-99999999999999999999"),
        Err(ParseError::MalformedAmount)
    );
}

#[test]
fn refuses_a_line_that_is_not_two_parts() {
    for line in ["", "Iron", "Iron3", "Iron-3-4", "Iron--3", "-", "--", "Iron-3-", "done"] {
        let expected = if line == "-" {
            Err(ParseError::UnknownComodity)
        } else {
            Err(ParseError::MalformedAmount)
        };
        assert_eq!(Comodity::parse_from_input(line), expected);
    }
}

#[test]
fn refuses_an_unknown_name() {
    for line in ["Gold-3", "iron-3", "-3", " Iron-3", "Iron -3", "Count-1"] {
        assert_eq!(Comodity::parse_from_input(line), Err(ParseError::UnknownComodity));
    }
}

#[test]
fn judges_the_name_before_the_amount() {
    assert_eq!(Comodity::parse_from_input("Gold-x"), Err(ParseError::UnknownComodity));
    assert_eq!(Comodity::parse_from_input("Gold-"), Err(ParseError::UnknownComodity));
}

#[test]
fn refuses_an_amount_that_is_no_number() {
    for line in ["Iron-", "Iron-x", "Iron-3x", "Iron- 3", "Iron-3 ", "Iron-+", "Iron-++3", "Iron-3.0", "Iron-٣"] {
        assert_eq!(Comodity::parse_from_input(line), Err(ParseError::MalformedAmount));
    }
}

#[test]
fn amounts_agree_with_the_standard_reading() {
    let texts = [
        "0", "1", "42", "+42", "0042", "+0", "", "+", "++1", "1+", "4294967295", "4294967296",
        "42949672950", "12a", "a12", " 1", "1 ", "1_000", "0x10", "٤٢",
    ];
    for text in texts.iter() {
        let chars = chars_of(text);
        assert_eq!(amount_in(&chars, 0), text.parse::<u32>().ok());
    }
}

#[test]
fn amount_is_read_from_a_position() {
    let chars = chars_of("Iron-15");
    assert_eq!(amount_in(&chars, 5), Some(15));
    assert_eq!(amount_in(&chars, 6), Some(5));
    assert_eq!(amount_in(&chars, 7), None);
    assert_eq!(amount_in(&chars, 0), None);
}

#[test]
fn characters_are_listed_in_order() {
    assert_eq!(chars_of("Wóod-3"), vec!['W', 'ó', 'o', 'd', '-', '3']);
    assert_eq!(chars_of(""), Vec::<char>::new());
}

#[test]
fn a_part_is_compared_with_a_word() {
    let chars = chars_of("Iron-3");
    assert!(part_is(&chars, 0, 4, "Iron"));
    assert!(!part_is(&chars, 0, 4, "Iron-"));
    assert!(!part_is(&chars, 0, 4, "Iran"));
    assert!(!part_is(&chars, 0, 3, "Iron"));
    assert!(part_is(&chars, 4, 5, "-"));
    assert!(part_is(&chars, 2, 2, ""));
}

#[test]
fn a_part_names_a_comodity() {
    let chars = chars_of("xWood-Coal");
    assert_eq!(comodity_in(&chars, 1, 5), Some(Comodity::Wood));
    assert_eq!(comodity_in(&chars, 6, 10), Some(Comodity::Coal));
    assert_eq!(comodity_in(&chars, 0, 5), None);
    assert_eq!(comodity_in(&chars, 0, 0), None);
}
