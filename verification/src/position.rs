//! Board cells: the coordinate range, the permanently illegal cells and the
//! label under which the moderator reads a cell out.

use vstd::prelude::*;
use vstd::string::StrSliceExecFns;
use crate::text::push_char;

verus! {

/// First row of the board.
pub const MIN_ROW: u8 = 1;

/// Last row of the board.
pub const MAX_ROW: u8 = 7;

/// First column of the board.
pub const MIN_COL: u8 = 1;

/// Last column of the board.
pub const MAX_COL: u8 = 11;

/// The column that separates the two halves of the board.
pub const CENTER_COL: u8 = 6;

/// The row on which both bases stand.
pub const BASE_ROW: u8 = 4;

/// A cell of the board as a pair of mathematical integers.
pub struct Cell {
    pub row: int,
    pub col: int,
}

impl Cell {
    /// The cell lies within the coordinate range of the board.
    pub open spec fn on_board(self) -> bool {
        MIN_ROW <= self.row <= MAX_ROW && MIN_COL <= self.col <= MAX_COL
    }

    /// The cell is one of the two bases or one of the three center-lane
    /// cells, on which nothing may ever be placed.
    pub open spec fn is_illegal(self) -> bool {
        illegal_cells().contains(self)
    }

    /// The label of the cell: its column letter followed by its row digit.
    pub open spec fn label(self) -> Seq<char> {
        seq![column_letter(self.col), row_digit(self.row)]
    }
}

/// The cells on which nothing may ever be placed: both bases and the three
/// cells of the center lane.
pub open spec fn illegal_cells() -> Set<Cell> {
    set![
        Cell { row: 4, col: 1 },
        Cell { row: 4, col: 11 },
        Cell { row: 3, col: 6 },
        Cell { row: 4, col: 6 },
        Cell { row: 5, col: 6 },
    ]
}

/// The letters by which columns are called, the first column first.
pub const COL_ALPHABET: &'static str = "ABCDEFGHIJKLMNOPQRSTUVWXYZ";

/// The digits by which rows are called, the first row first.
pub const ROW_DIGITS: &'static str = "123456789";

/// The letter of a column: `A` for the first, `B` for the second, and so on.
pub open spec fn column_letter(col: int) -> char {
    COL_ALPHABET@[col - 1]
}

/// The digit of a row: `1` for the first, `2` for the second, and so on.
pub open spec fn row_digit(row: int) -> char {
    ROW_DIGITS@[row - 1]
}

/// A cell of the board. Every value lies on the board.
#[derive(Clone, Copy, PartialEq, Eq, Debug, Structural)]
pub struct Position {
    row: u8,
    col: u8,
}

impl View for Position {
    type V = Cell;

    closed spec fn view(&self) -> Cell {
        Cell { row: self.row as int, col: self.col as int }
    }
}

impl Position {
    #[verifier::type_invariant]
    spec fn within_board(self) -> bool {
        self@.on_board()
    }

    /// The position at `row` and `col`, if that cell exists on the board.
    pub fn new(row: u8, col: u8) -> (pos: Option<Position>)
        ensures
            pos is Some <==> (Cell { row: row as int, col: col as int }).on_board(),
            pos is Some ==> pos.unwrap()@ == (Cell { row: row as int, col: col as int }),
    {
        if MIN_ROW <= row && row <= MAX_ROW && MIN_COL <= col && col <= MAX_COL {
            Some(Position { row, col })
        } else {
            None
        }
    }

    /// The row of the position.
    pub fn row(&self) -> (row: u8)
        ensures
            row == self@.row,
            self@.on_board(),
    {
        proof {
            use_type_invariant(self);
        }
        self.row
    }

    /// The column of the position.
    pub fn col(&self) -> (col: u8)
        ensures
            col == self@.col,
            self@.on_board(),
    {
        proof {
            use_type_invariant(self);
        }
        self.col
    }

    /// Whether the position is a base or a center-lane cell.
    pub fn is_illegal(&self) -> (illegal: bool)
        ensures
            illegal == self@.is_illegal(),
    {
        (self.row == BASE_ROW && (self.col == MIN_COL || self.col == MAX_COL))
            || (self.col == CENTER_COL && BASE_ROW - 1 <= self.row && self.row <= BASE_ROW + 1)
    }

    /// The label of the position, such as `C5`: the column letter, then the
    /// row digit.
    pub fn to_string(&self) -> (label: String)
        ensures
            label@ == self@.label(),
    {
        proof {
            use_type_invariant(self);
            reveal_strlit("ABCDEFGHIJKLMNOPQRSTUVWXYZ");
            reveal_strlit("123456789");
        }
        let letter = COL_ALPHABET.get_char((self.col - 1) as usize);
        let digit = ROW_DIGITS.get_char((self.row - 1) as usize);
        let mut label = String::new();
        push_char(&mut label, letter);
        push_char(&mut label, digit);
        label
    }
}

} // verus!
