use vstd::prelude::*;

verus! {

/// The mark that occupies a cell of the board.
#[derive(Copy, Clone, Debug, PartialEq, Eq, Structural)]
pub enum Token {
    Empty,
    X,
    O,
}

} // verus!
