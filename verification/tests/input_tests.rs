use noughts_and_crosses::input_error::{parse_input, InputError};
use noughts_and_crosses::player::Player;
use noughts_and_crosses::player_symbol::PlayerSymbol;

#[test]
fn parse_well_formed_pairs() {
    assert_eq!(parse_input("1,1"), Ok((0, 0)));
    assert_eq!(parse_input("1,2"), Ok((0, 1)));
    assert_eq!(parse_input("3,3"), Ok((2, 2)));
    assert_eq!(parse_input("2,3"), Ok((1, 2)));
}

#[test]
fn parse_strips_spaces_anywhere() {
    assert_eq!(parse_input(" 2 , 3 "), Ok((1, 2)));
    assert_eq!(parse_input("1 ,1"), Ok((0, 0)));
    assert_eq!(parse_input("  3,1"), Ok((2, 0)));
}

#[test]
fn parse_accepts_leading_zeros() {
    assert_eq!(parse_input("01,2"), Ok((0, 1)));
    assert_eq!(parse_input("1,003"), Ok((0, 2)));
}

#[test]
fn parse_missing_coordinate() {
    assert_eq!(parse_input(""), Err(InputError::MissingCoordinate));
    assert_eq!(parse_input("12"), Err(InputError::MissingCoordinate));
    assert_eq!(parse_input(",2"), Err(InputError::MissingCoordinate));
    assert_eq!(parse_input("1,"), Err(InputError::MissingCoordinate));
    assert_eq!(parse_input(","), Err(InputError::MissingCoordinate));
    assert_eq!(parse_input("   "), Err(InputError::MissingCoordinate));
}

#[test]
fn parse_non_numeric_coordinate() {
    assert_eq!(parse_input("a,2"), Err(InputError::NonNumericCoordinate));
    assert_eq!(parse_input("1,b"), Err(InputError::NonNumericCoordinate));
    assert_eq!(parse_input("x,y"), Err(InputError::NonNumericCoordinate));
    // A second comma makes the right side non-numeric.
    assert_eq!(parse_input("1,2,3"), Err(InputError::NonNumericCoordinate));
    // Untrimmed line endings count as non-numeric characters.
    assert_eq!(parse_input("1,2\n"), Err(InputError::NonNumericCoordinate));
}

#[test]
fn parse_out_of_range() {
    assert_eq!(parse_input("0,1"), Err(InputError::OutOfRange));
    assert_eq!(parse_input("4,1"), Err(InputError::OutOfRange));
    assert_eq!(parse_input("1,9"), Err(InputError::OutOfRange));
    assert_eq!(parse_input("10,1"), Err(InputError::OutOfRange));
    assert_eq!(parse_input("1,400"), Err(InputError::OutOfRange));
    assert_eq!(parse_input("0,0"), Err(InputError::OutOfRange));
}

#[test]
fn opposite_swaps_the_symbols() {
    assert_eq!(PlayerSymbol::Cross.opposite(), PlayerSymbol::Nought);
    assert_eq!(PlayerSymbol::Nought.opposite(), PlayerSymbol::Cross);
    assert_eq!(PlayerSymbol::Cross.opposite().opposite(), PlayerSymbol::Cross);
}

#[test]
fn symbols_display_as_single_characters() {
    assert_eq!(PlayerSymbol::Cross.as_char(), 'X');
    assert_eq!(PlayerSymbol::Nought.as_char(), 'O');
}

#[test]
fn player_accessors() {
    let mut p = Player::new(PlayerSymbol::Cross, 1);
    assert_eq!(p.symbol(), PlayerSymbol::Cross);
    assert_eq!(p.get_player_number(), 1);
    p.set_symbol(PlayerSymbol::Nought);
    assert_eq!(p.symbol(), PlayerSymbol::Nought);
    assert_eq!(p.get_player_number(), 1);
    assert_eq!(p.current_player().get_player_number(), 1);
}
