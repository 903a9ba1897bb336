//! The shape of a move, as a move generator fills it in from the ray table and the position on
//! the board. The table knows nothing of what stands on the squares; these types are where the
//! two meet.

use crate::catalogue::SlidingRole;
use crate::square::Pos;
use vstd::prelude::*;

verus! {

/// Every kind of piece.
#[derive(Debug, PartialEq, Eq, Structural, Copy, Clone)]
pub enum Role {
    King,
    Queen,
    Rook,
    Bishop,
    Knight,
    Pawn,
}

/// What a pawn can become on the last rank.
#[derive(Debug, PartialEq, Eq, Structural, Copy, Clone)]
pub enum PromotingRole {
    Queen,
    Rook,
    Bishop,
    Knight,
}

/// Where a piece moves from and to.
pub type HasOrigDest = (Pos, Pos);

/// The squares that must be empty for the move.
pub type HasBlocks = Vec<Pos>;

/// The square of the piece that the move takes.
pub type HasCapture = Pos;

/// The piece that the pawn becomes.
pub type HasPromote = PromotingRole;

/// One candidate move.
#[allow(inconsistent_fields)]
#[derive(Debug)]
pub enum Mobility {
    /// A move of a sliding piece along one of its rays.
    Slide { role: SlidingRole, orig: HasOrigDest, blocks: HasBlocks, capture: Option<HasCapture> },
    /// A pawn moving straight ahead.
    PawnPush { orig: HasOrigDest, blocks: HasBlocks, promote: Option<HasPromote> },
    /// A pawn taking a piece.
    PawnCapture { orig: HasOrigDest, capture: HasCapture, promote: Option<HasPromote> },
    /// King and rook moving together.
    Castle { orig: HasOrigDest, rook_orig: HasOrigDest, blocks: HasBlocks },
}

} // verus!
