//! The ways in which an operation on the game can fail.

use vstd::prelude::*;
use vstd::string::StringExecFns;
use crate::text::{decimal, push_decimal};

verus! {

/// An error surfaced by the simulation. None is recovered from inside the
/// library: each is handed to the caller as it arises.
#[derive(Copy, Clone, Eq, PartialEq, Debug, Structural)]
pub enum SnakeCtrlErr {
    /// A row index lies outside the grid.
    RowIndexOutOfBounds(u16),
    /// A column index lies outside the grid.
    ColumnIndexOutOfBounds(u16),
    /// The head moved onto the body, or a forbidden reversal was requested.
    SnakeAteItself,
    /// The head left the grid while walls are solid.
    SnakeHitTheWall,
    /// The initial snake does not fit to the left of the grid's center.
    InitSnakeSizeIsBig,
    /// A move was asked of a snake too short to have a head left once its
    /// tail is taken off.
    SnakeIsZero,
}

/// What a fallible operation of the library returns.
pub type SnakeCtrlResult<T> = Result<T, SnakeCtrlErr>;

impl SnakeCtrlErr {
    /// The error in words.
    pub open spec fn message(self) -> Seq<char> {
        match self {
            SnakeCtrlErr::RowIndexOutOfBounds(n) => "row index ("@ + decimal(n as nat)
                + ") is out of bounds"@,
            SnakeCtrlErr::ColumnIndexOutOfBounds(n) => "column index ("@ + decimal(n as nat)
                + ") is out of bounds"@,
            SnakeCtrlErr::SnakeAteItself => "the snake ate itself"@,
            SnakeCtrlErr::SnakeHitTheWall => "the snake hit the wall"@,
            SnakeCtrlErr::InitSnakeSizeIsBig => "initial snake size is more than possible"@,
            SnakeCtrlErr::SnakeIsZero => "something is really wrong. your snake size is zero"@,
        }
    }

    /// The error in words, as a message for a person.
    pub fn to_string(&self) -> (s: String)
        ensures
            s@ == self.message(),
    {
        match self {
            SnakeCtrlErr::RowIndexOutOfBounds(n) => {
                let mut out = String::from_str("row index (");
                push_decimal(&mut out, *n as u32);
                out.append(") is out of bounds");
                out
            },
            SnakeCtrlErr::ColumnIndexOutOfBounds(n) => {
                let mut out = String::from_str("column index (");
                push_decimal(&mut out, *n as u32);
                out.append(") is out of bounds");
                out
            },
            SnakeCtrlErr::SnakeAteItself => String::from_str("the snake ate itself"),
            SnakeCtrlErr::SnakeHitTheWall => String::from_str("the snake hit the wall"),
            SnakeCtrlErr::InitSnakeSizeIsBig => String::from_str(
                "initial snake size is more than possible",
            ),
            SnakeCtrlErr::SnakeIsZero => String::from_str(
                "something is really wrong. your snake size is zero",
            ),
        }
    }
}

} // verus!
