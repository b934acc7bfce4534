//! The two teams and what the board assigns to each of them.

use vstd::prelude::*;
use crate::position::{Cell, Position, CENTER_COL};

verus! {

/// One of the two competing teams.
#[derive(Clone, Copy, PartialEq, Eq, Debug, Structural)]
pub enum AiSide {
    For,
    Against,
}

impl AiSide {
    /// The other team.
    pub open spec fn opponent(self) -> AiSide {
        match self {
            AiSide::For => AiSide::Against,
            AiSide::Against => AiSide::For,
        }
    }

    /// The cell lies strictly on this team's half of the board: left of the
    /// center column for `For`, right of it for `Against`.
    pub open spec fn half_holds(self, cell: Cell) -> bool {
        match self {
            AiSide::For => cell.col < CENTER_COL,
            AiSide::Against => cell.col > CENTER_COL,
        }
    }

    /// The column on which this team's VPN stands.
    pub open spec fn vpn_col(self) -> int {
        match self {
            AiSide::For => 3,
            AiSide::Against => 9,
        }
    }

    /// The name under which this team is shown.
    pub open spec fn label(self) -> Seq<char> {
        match self {
            AiSide::For => "For AI"@,
            AiSide::Against => "Against AI"@,
        }
    }

    /// The other team.
    pub fn switch(&self) -> (other: AiSide)
        ensures
            other == self.opponent(),
    {
        match self {
            AiSide::For => AiSide::Against,
            AiSide::Against => AiSide::For,
        }
    }

    /// Whether `pos` lies strictly on this team's half of the board.
    pub fn pos_inside(&self, pos: &Position) -> (inside: bool)
        ensures
            inside == self.half_holds(pos@),
    {
        match self {
            AiSide::For => pos.col() < CENTER_COL,
            AiSide::Against => pos.col() > CENTER_COL,
        }
    }

    /// The column on which this team's VPN stands.
    pub fn vpn_column(&self) -> (col: u8)
        ensures
            col == self.vpn_col(),
    {
        match self {
            AiSide::For => 3,
            AiSide::Against => 9,
        }
    }

    /// The name under which this team is shown.
    pub fn name(&self) -> (name: &str)
        ensures
            name@ == self.label(),
    {
        match self {
            AiSide::For => "For AI",
            AiSide::Against => "Against AI",
        }
    }
}

} // verus!
