//! The position generator: where capture points, VPNs and race targets may
//! stand, and how a cell is drawn for each.

use vstd::prelude::*;
use rand::rngs::ThreadRng;
use crate::ai_side::AiSide;
use crate::position::{Cell, Position, MAX_COL, MAX_ROW, MIN_COL, MIN_ROW};
use crate::rng::gen_range_inclusive;

verus! {

/// First column of the buffer band around the center, which holds no
/// capture point.
pub const BUFFER_MIN_COL: u8 = 5;

/// Last column of the buffer band around the center.
pub const BUFFER_MAX_COL: u8 = 7;

/// How many cells are drawn for one placement before the sampling gives up
/// and takes a fixed admissible cell. More than a third of the board is
/// admissible for every placement, so the cap is out of the reach of chance.
pub const MAX_DRAWS: u32 = 100_000;

/// A capture point of `side` may stand on `cell`: the cell is on the board,
/// is not illegal, lies outside the buffer band and strictly on the side's
/// half.
pub open spec fn capture_allowed(side: AiSide, cell: Cell) -> bool {
    &&& cell.on_board()
    &&& !cell.is_illegal()
    &&& !(BUFFER_MIN_COL <= cell.col <= BUFFER_MAX_COL)
    &&& side.half_holds(cell)
}

/// The VPN of `side` may stand on `cell`: any row of the side's VPN column.
pub open spec fn vpn_allowed(side: AiSide, cell: Cell) -> bool {
    cell.on_board() && cell.col == side.vpn_col()
}

/// A race may aim at `cell`: any cell of the board that is not illegal.
pub open spec fn race_allowed(cell: Cell) -> bool {
    cell.on_board() && !cell.is_illegal()
}

/// The team that the draw `n` stands for: `For` on zero, `Against` else.
pub open spec fn side_of_draw(n: u8) -> AiSide {
    if n == 0 {
        AiSide::For
    } else {
        AiSide::Against
    }
}

/// The team that the draw `n` stands for.
pub fn side_from_draw(n: u8) -> (side: AiSide)
    ensures
        side == side_of_draw(n),
{
    if n == 0 {
        AiSide::For
    } else {
        AiSide::Against
    }
}

/// One of the two teams, drawn with equal chance.
pub fn random_side(rng: &mut ThreadRng) -> (side: AiSide) {
    let n: u8 = gen_range_inclusive(rng, 0, 1);
    side_from_draw(n)
}

/// A cell of the board, every row and every column drawn with equal chance.
pub fn random_position(rng: &mut ThreadRng) -> (pos: Position)
    ensures
        pos@.on_board(),
{
    let row: u8 = gen_range_inclusive(rng, MIN_ROW, MAX_ROW);
    let col: u8 = gen_range_inclusive(rng, MIN_COL, MAX_COL);
    Position::new(row, col).unwrap()
}

/// Whether a capture point of `ai_side` may stand on `pos`.
pub fn capture_legal(ai_side: AiSide, pos: &Position) -> (legal: bool)
    ensures
        legal == capture_allowed(ai_side, pos@),
{
    let col: u8 = pos.col();
    !pos.is_illegal() && (col < BUFFER_MIN_COL || col > BUFFER_MAX_COL) && ai_side.pos_inside(pos)
}

/// Whether a race may aim at `pos`.
pub fn race_legal(pos: &Position) -> (legal: bool)
    ensures
        legal == race_allowed(pos@),
{
    let _row: u8 = pos.row();
    !pos.is_illegal()
}

/// The corner of the board on the half of `ai_side`, on its first row. A
/// capture point of that side may stand there, and so may a race target.
pub fn home_corner(ai_side: AiSide) -> (pos: Position)
    ensures
        pos@ == (Cell {
            row: MIN_ROW as int,
            col: if ai_side == AiSide::For { MIN_COL as int } else { MAX_COL as int },
        }),
        capture_allowed(ai_side, pos@),
        race_allowed(pos@),
{
    let col: u8 = match ai_side {
        AiSide::For => MIN_COL,
        AiSide::Against => MAX_COL,
    };
    Position::new(MIN_ROW, col).unwrap()
}

/// A cell for a capture point of `ai_side`, by rejection sampling: cells of
/// the whole board are drawn until one is admissible. After `MAX_DRAWS`
/// rejected cells the side's home corner is taken.
pub fn capture_position(rng: &mut ThreadRng, ai_side: AiSide) -> (pos: Position)
    ensures
        capture_allowed(ai_side, pos@),
{
    let mut draws: u32 = 0;
    while draws < MAX_DRAWS
        invariant
            draws <= MAX_DRAWS,
        decreases MAX_DRAWS - draws,
    {
        let position = random_position(rng);
        if capture_legal(ai_side, &position) {
            return position;
        }
        draws = draws + 1;
    }
    home_corner(ai_side)
}

/// A cell for the VPN of `ai_side`: a row drawn with equal chance on the
/// side's VPN column.
pub fn vpn_position(rng: &mut ThreadRng, ai_side: AiSide) -> (pos: Position)
    ensures
        vpn_allowed(ai_side, pos@),
{
    let row: u8 = gen_range_inclusive(rng, MIN_ROW, MAX_ROW);
    Position::new(row, ai_side.vpn_column()).unwrap()
}

/// A cell for a race to aim at, by rejection sampling: cells of the whole
/// board are drawn until one is not illegal. After `MAX_DRAWS` rejected
/// cells the first corner of the board is taken.
pub fn race_position(rng: &mut ThreadRng) -> (pos: Position)
    ensures
        race_allowed(pos@),
{
    let mut draws: u32 = 0;
    while draws < MAX_DRAWS
        invariant
            draws <= MAX_DRAWS,
        decreases MAX_DRAWS - draws,
    {
        let position = random_position(rng);
        if race_legal(&position) {
            return position;
        }
        draws = draws + 1;
    }
    home_corner(AiSide::For)
}

} // verus!
