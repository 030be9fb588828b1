use vstd::prelude::*;

use crate::square::{square_index, square_to_index, Square};
use crate::token::Token;

verus! {

/// An immutable snapshot of the nine cells of the board, one token per slot.
#[derive(Copy, Clone, Debug, PartialEq, Eq)]
pub struct Position {
    board: [Token; 9],
}

impl View for Position {
    type V = Seq<Token>;

    /// The nine tokens, in slot order (see `square_index`).
    closed spec fn view(&self) -> Seq<Token> {
        self.board@
    }
}

/// The board with every slot empty.
pub open spec fn empty_board() -> Seq<Token> {
    Seq::new(9, |i: int| Token::Empty)
}

impl Position {
    /// Every position has exactly nine slots.
    pub broadcast proof fn lemma_len(p: Position)
        ensures
            (#[trigger] p@).len() == 9,
    {
    }

    /// The position with all nine slots empty.
    pub fn empty() -> (r: Position)
        ensures
            r@ == empty_board(),
    {
        let r = Position { board: [Token::Empty; 9] };
        assert(r@ =~= empty_board());
        r
    }

    /// The token on `square`.
    pub fn token_at(&self, square: Square) -> (r: Token)
        ensures
            r == self@[square_index(square)],
    {
        self.board[square_to_index(square)]
    }
}

/// The error that `apply_move` reports for a move onto an occupied square.
#[derive(Debug)]
pub struct PositionError {
    details: String,
}

/// The description carried by the error for an occupied square.
pub open spec fn occupied_square_message() -> Seq<char> {
    "Cannot apply move to non-empty square"@
}

impl View for PositionError {
    type V = Seq<char>;

    /// The human-readable description of the error.
    closed spec fn view(&self) -> Seq<char> {
        self.details@
    }
}

impl PositionError {
    /// An error that carries `msg` as its description.
    pub fn new(msg: &str) -> (r: PositionError)
        ensures
            r@ == msg@,
    {
        PositionError { details: msg.to_string() }
    }

    /// The human-readable description of the error.
    pub fn details(&self) -> (r: &str)
        ensures
            r@ == self@,
    {
        self.details.as_str()
    }
}

/// Places `token` on `square` of `position`. The move succeeds exactly when
/// that square is empty, and then changes that one slot and no other; on an
/// occupied square it reports the occupied-square error. No check is made of
/// turn order or of which token is placed.
pub fn apply_move(position: Position, square: Square, token: Token) -> (r: Result<Position, PositionError>)
    ensures
        r is Ok <==> position@[square_index(square)] == Token::Empty,
        r matches Ok(next) ==> next@ == position@.update(square_index(square), token),
        r matches Err(e) ==> e@ == occupied_square_message(),
{
    let i = square_to_index(square);
    match position.board[i] {
        Token::Empty => {
            let mut board = position.board;
            board[i] = token;
            let next = Position { board };
            assert(next@ =~= position@.update(square_index(square), token));
            Ok(next)
        },
        _ => Err(PositionError::new("Cannot apply move to non-empty square")),
    }
}

/// The eight lines of three slots, in the order in which they are checked:
/// the rows of slots, then the columns, then the two diagonals.
pub open spec fn line(k: int) -> (int, int, int) {
    if k == 0 {
        (0, 1, 2)
    } else if k == 1 {
        (3, 4, 5)
    } else if k == 2 {
        (6, 7, 8)
    } else if k == 3 {
        (0, 3, 6)
    } else if k == 4 {
        (1, 4, 7)
    } else if k == 5 {
        (2, 5, 8)
    } else if k == 6 {
        (0, 4, 8)
    } else {
        (2, 4, 6)
    }
}

/// Line `k` holds three equal tokens that are not `Empty`.
pub open spec fn line_complete(b: Seq<Token>, k: int) -> bool {
    let (i, j, l) = line(k);
    b[i] != Token::Empty && b[j] == b[i] && b[l] == b[i]
}

/// The token of the first complete line among lines `k..8`, or `Empty`.
pub open spec fn first_winner_from(b: Seq<Token>, k: int) -> Token
    decreases 8 - k,
{
    if k >= 8 {
        Token::Empty
    } else if line_complete(b, k) {
        b[line(k).0]
    } else {
        first_winner_from(b, k + 1)
    }
}

/// The token of the first complete line of `b`, or `Empty` when no line is
/// complete.
pub open spec fn winning_token(b: Seq<Token>) -> Token {
    first_winner_from(b, 0)
}

/// The three slots of line `k`.
fn line_slots(k: usize) -> (r: (usize, usize, usize))
    requires
        k < 8,
    ensures
        (r.0 as int, r.1 as int, r.2 as int) == line(k as int),
        r.0 < 9 && r.1 < 9 && r.2 < 9,
{
    if k == 0 {
        (0, 1, 2)
    } else if k == 1 {
        (3, 4, 5)
    } else if k == 2 {
        (6, 7, 8)
    } else if k == 3 {
        (0, 3, 6)
    } else if k == 4 {
        (1, 4, 7)
    } else if k == 5 {
        (2, 5, 8)
    } else if k == 6 {
        (0, 4, 8)
    } else {
        (2, 4, 6)
    }
}

/// The token that has completed a line of three in `position`, or `Empty`
/// when no line is complete. Where several lines are complete, the first in
/// the order of `line` decides.
pub fn winner(position: Position) -> (r: Token)
    ensures
        r == winning_token(position@),
{
    let board = position.board;
    let mut k: usize = 0;
    while k < 8
        invariant
            k <= 8,
            board@ == position@,
            first_winner_from(position@, k as int) == winning_token(position@),
        decreases 8 - k,
    {
        let (i, j, l) = line_slots(k);
        let first = board[i];
        if first != Token::Empty && board[j] == first && board[l] == first {
            return first;
        }
        k = k + 1;
    }
    Token::Empty
}

// Laws of the rules engine.

/// The empty position has no winner.
pub proof fn lemma_empty_has_no_winner()
    ensures
        winning_token(empty_board()) == Token::Empty,
{
    lemma_no_complete_line_no_winner(empty_board());
}

/// A board on which no line holds three equal non-`Empty` tokens has no
/// winner; a full board without such a line (a draw) included.
pub proof fn lemma_no_complete_line_no_winner(b: Seq<Token>)
    requires
        b.len() == 9,
        forall|k: int| 0 <= k < 8 ==> !#[trigger] line_complete(b, k),
    ensures
        winning_token(b) == Token::Empty,
{
    lemma_first_winner_from_empty(b, 0);
}

proof fn lemma_first_winner_from_empty(b: Seq<Token>, k: int)
    requires
        0 <= k <= 8,
        forall|m: int| k <= m < 8 ==> !#[trigger] line_complete(b, m),
    ensures
        first_winner_from(b, k) == Token::Empty,
    decreases 8 - k,
{
    if k < 8 {
        lemma_first_winner_from_empty(b, k + 1);
    }
}

/// A board that has a winner has a complete line of the winner's token.
pub proof fn lemma_winner_has_complete_line(b: Seq<Token>)
    requires
        b.len() == 9,
        winning_token(b) != Token::Empty,
    ensures
        exists|k: int| 0 <= k < 8 && #[trigger] line_complete(b, k) && b[line(k).0] == winning_token(b),
{
    lemma_first_winner_from_line(b, 0);
}

proof fn lemma_first_winner_from_line(b: Seq<Token>, k: int)
    requires
        0 <= k <= 8,
        first_winner_from(b, k) != Token::Empty,
    ensures
        exists|m: int| k <= m < 8 && #[trigger] line_complete(b, m) && b[line(m).0] == first_winner_from(b, k),
    decreases 8 - k,
{
    if !line_complete(b, k) {
        lemma_first_winner_from_line(b, k + 1);
    }
}

} // verus!
