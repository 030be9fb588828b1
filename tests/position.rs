use tictactoe::{apply_move, winner, Position, PositionError, Square, Token};

#[test]
fn empty_position_has_no_winner() {
    let pos = Position::empty();

    assert_eq!(winner(pos), Token::Empty);
}

#[test]
fn x_wins_first_rank() -> Result<(), PositionError> {
    let empty = Position::empty();
    let x = apply_move(empty, Square::A1, Token::X)?;
    let xx = apply_move(x, Square::B1, Token::X)?;
    let xxx = apply_move(xx, Square::C1, Token::X)?;

    assert_eq!(winner(xxx), Token::X);

    return Ok(());
}

#[test]
fn o_wins_a_file() -> Result<(), PositionError> {
    let empty = Position::empty();
    let o = apply_move(empty, Square::A1, Token::O)?;
    let oo = apply_move(o, Square::A2, Token::O)?;
    let ooo = apply_move(oo, Square::A3, Token::O)?;

    assert_eq!(winner(ooo), Token::O);

    return Ok(());
}

#[test]
fn x_wins_a3_daigonal() -> Result<(), PositionError> {
    let empty = Position::empty();
    let x = apply_move(empty, Square::A3, Token::X)?;
    let xx = apply_move(x, Square::B2, Token::X)?;
    let xxx = apply_move(xx, Square::C1, Token::X)?;

    assert_eq!(winner(xxx), Token::X);

    return Ok(());
}

#[test]
fn x_wins_c3_diagonal() -> Result<(), PositionError> {
    let empty = Position::empty();
    let x = apply_move(empty, Square::C3, Token::X)?;
    let xx = apply_move(x, Square::B2, Token::X)?;
    let xxx = apply_move(xx, Square::A1, Token::X)?;

    assert_eq!(winner(xxx), Token::X);

    return Ok(());
}
