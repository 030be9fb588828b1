use vstd::prelude::*;

verus! {

/// One of the nine cells of the board: a row letter (A, B, C) and a column
/// digit (1, 2, 3) within that row.
#[derive(Copy, Clone, Debug, PartialEq, Eq, Structural)]
pub enum Square {
    A1,
    A2,
    A3,
    B1,
    B2,
    B3,
    C1,
    C2,
    C3,
}

/// The slot that a square occupies in a position, in `0..9`.
pub open spec fn square_index(square: Square) -> int {
    match square {
        Square::A1 => 0,
        Square::A2 => 1,
        Square::A3 => 2,
        Square::B1 => 3,
        Square::B2 => 4,
        Square::B3 => 5,
        Square::C1 => 6,
        Square::C2 => 7,
        Square::C3 => 8,
    }
}

/// Distinct squares occupy distinct slots, each in `0..9`.
pub proof fn lemma_square_index_injective(a: Square, b: Square)
    ensures
        0 <= square_index(a) < 9,
        square_index(a) == square_index(b) ==> a == b,
{
}

/// The slot index of `square`.
pub fn square_to_index(square: Square) -> (r: usize)
    ensures
        r as int == square_index(square),
        r < 9,
{
    match square {
        Square::A1 => 0,
        Square::A2 => 1,
        Square::A3 => 2,
        Square::B1 => 3,
        Square::B2 => 4,
        Square::B3 => 5,
        Square::C1 => 6,
        Square::C2 => 7,
        Square::C3 => 8,
    }
}

} // verus!
