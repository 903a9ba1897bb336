//! The pieces that move along rays, and for each of them the directions and the numbers of steps
//! of its rays.

use crate::coord::Idir;
use crate::ray::Projection;
use crate::square::Dir;
use vstd::prelude::*;

verus! {

/// The pieces whose moves are a direction repeated some number of times. The pawn is none of
/// them.
#[derive(Debug, PartialEq, Eq, Structural, Copy, Clone)]
pub enum SlidingRole {
    King,
    Queen,
    Rook,
    Bishop,
    Knight,
}

/// The four directions along a rank or a file: toward the higher file, the lower file, the
/// higher rank, the lower rank.
pub open spec fn orthogonals() -> Seq<Dir> {
    seq![
        Dir(Idir::UP, Idir::STILL),
        Dir(Idir::DOWN, Idir::STILL),
        Dir(Idir::STILL, Idir::UP),
        Dir(Idir::STILL, Idir::DOWN),
    ]
}

/// The four diagonal directions.
pub open spec fn diagonals() -> Seq<Dir> {
    seq![
        Dir(Idir::UP, Idir::UP),
        Dir(Idir::DOWN, Idir::UP),
        Dir(Idir::UP, Idir::DOWN),
        Dir(Idir::DOWN, Idir::DOWN),
    ]
}

/// The eight steps of a king: toward the higher rank, the lower rank, the higher file, the lower
/// file, then along the four diagonals.
pub open spec fn king_steps() -> Seq<Dir> {
    seq![
        Dir(Idir::STILL, Idir::UP),
        Dir(Idir::STILL, Idir::DOWN),
        Dir(Idir::UP, Idir::STILL),
        Dir(Idir::DOWN, Idir::STILL),
        Dir(Idir::UP, Idir::UP),
        Dir(Idir::DOWN, Idir::UP),
        Dir(Idir::UP, Idir::DOWN),
        Dir(Idir::DOWN, Idir::DOWN),
    ]
}

/// The eight jumps of a knight: two files and one rank, then one file and two ranks.
pub open spec fn knight_jumps() -> Seq<Dir> {
    seq![
        Dir(Idir::UP2, Idir::UP),
        Dir(Idir::UP2, Idir::DOWN),
        Dir(Idir::DOWN2, Idir::UP),
        Dir(Idir::DOWN2, Idir::DOWN),
        Dir(Idir::UP, Idir::UP2),
        Dir(Idir::UP, Idir::DOWN2),
        Dir(Idir::DOWN, Idir::UP2),
        Dir(Idir::DOWN, Idir::DOWN2),
    ]
}

/// The single step of the pieces that do not slide.
pub open spec fn short_projections() -> Seq<Projection> {
    seq![1u8]
}

/// The one to seven steps of the pieces that slide.
pub open spec fn long_projections() -> Seq<Projection> {
    seq![1u8, 2u8, 3u8, 4u8, 5u8, 6u8, 7u8]
}

impl SlidingRole {
    /// The place of the role among the five: the key under which tables store it.
    pub open spec fn ord(self) -> int {
        match self {
            SlidingRole::King => 0,
            SlidingRole::Queen => 1,
            SlidingRole::Rook => 2,
            SlidingRole::Bishop => 3,
            SlidingRole::Knight => 4,
        }
    }

    /// The role at place `i`, for `i` in 0..=4.
    pub open spec fn at(i: int) -> SlidingRole {
        if i <= 0 {
            SlidingRole::King
        } else if i == 1 {
            SlidingRole::Queen
        } else if i == 2 {
            SlidingRole::Rook
        } else if i == 3 {
            SlidingRole::Bishop
        } else {
            SlidingRole::Knight
        }
    }

    /// The directions of the role, in the order in which its rays are listed. The queen has the
    /// bishop's directions followed by the rook's.
    pub open spec fn catalogue(self) -> Seq<Dir> {
        match self {
            SlidingRole::King => king_steps(),
            SlidingRole::Queen => diagonals() + orthogonals(),
            SlidingRole::Rook => orthogonals(),
            SlidingRole::Bishop => diagonals(),
            SlidingRole::Knight => knight_jumps(),
        }
    }

    /// The numbers of steps of the role's rays, in increasing order.
    pub open spec fn lengths(self) -> Seq<Projection> {
        match self {
            SlidingRole::King | SlidingRole::Knight => short_projections(),
            SlidingRole::Queen | SlidingRole::Rook | SlidingRole::Bishop => long_projections(),
        }
    }

    /// The place of the role as a machine integer.
    pub fn index(self) -> (i: usize)
        ensures
            i == self.ord(),
            i < 5,
    {
        match self {
            SlidingRole::King => 0,
            SlidingRole::Queen => 1,
            SlidingRole::Rook => 2,
            SlidingRole::Bishop => 3,
            SlidingRole::Knight => 4,
        }
    }

    /// The directions of the role.
    pub fn directions(self) -> (dirs: Vec<Dir>)
        ensures
            dirs@ == self.catalogue(),
    {
        let dirs = match self {
            SlidingRole::King => vec![
                Dir(Idir::STILL, Idir::UP),
                Dir(Idir::STILL, Idir::DOWN),
                Dir(Idir::UP, Idir::STILL),
                Dir(Idir::DOWN, Idir::STILL),
                Dir(Idir::UP, Idir::UP),
                Dir(Idir::DOWN, Idir::UP),
                Dir(Idir::UP, Idir::DOWN),
                Dir(Idir::DOWN, Idir::DOWN),
            ],
            SlidingRole::Queen => vec![
                Dir(Idir::UP, Idir::UP),
                Dir(Idir::DOWN, Idir::UP),
                Dir(Idir::UP, Idir::DOWN),
                Dir(Idir::DOWN, Idir::DOWN),
                Dir(Idir::UP, Idir::STILL),
                Dir(Idir::DOWN, Idir::STILL),
                Dir(Idir::STILL, Idir::UP),
                Dir(Idir::STILL, Idir::DOWN),
            ],
            SlidingRole::Rook => vec![
                Dir(Idir::UP, Idir::STILL),
                Dir(Idir::DOWN, Idir::STILL),
                Dir(Idir::STILL, Idir::UP),
                Dir(Idir::STILL, Idir::DOWN),
            ],
            SlidingRole::Bishop => vec![
                Dir(Idir::UP, Idir::UP),
                Dir(Idir::DOWN, Idir::UP),
                Dir(Idir::UP, Idir::DOWN),
                Dir(Idir::DOWN, Idir::DOWN),
            ],
            SlidingRole::Knight => vec![
                Dir(Idir::UP2, Idir::UP),
                Dir(Idir::UP2, Idir::DOWN),
                Dir(Idir::DOWN2, Idir::UP),
                Dir(Idir::DOWN2, Idir::DOWN),
                Dir(Idir::UP, Idir::UP2),
                Dir(Idir::UP, Idir::DOWN2),
                Dir(Idir::DOWN, Idir::UP2),
                Dir(Idir::DOWN, Idir::DOWN2),
            ],
        };
        assert(dirs@ =~= self.catalogue());
        dirs
    }

    /// The numbers of steps of the role's rays.
    pub fn projections(self) -> (lens: Vec<Projection>)
        ensures
            lens@ == self.lengths(),
    {
        let lens = match self {
            SlidingRole::King | SlidingRole::Knight => vec![1u8],
            SlidingRole::Queen | SlidingRole::Rook | SlidingRole::Bishop => vec![
                1u8,
                2u8,
                3u8,
                4u8,
                5u8,
                6u8,
                7u8,
            ],
        };
        assert(lens@ =~= self.lengths());
        lens
    }

    /// The five roles are stored under five different keys, and `at` undoes `ord`.
    pub proof fn lemma_index_bijective(self, other: SlidingRole, i: int)
        ensures
            0 <= self.ord() < 5,
            SlidingRole::at(self.ord()) == self,
            0 <= i < 5 ==> SlidingRole::at(i).ord() == i,
            self.ord() == other.ord() ==> self == other,
    {
    }

    /// What the catalogue holds: eight directions for king, queen and knight, four for rook and
    /// bishop; none of them stands still on both axes; every length is at least 1 and at most
    /// 7, and only a single step for king and knight.
    pub proof fn lemma_catalogue_shape(self)
        ensures
            self.catalogue().len() == match self {
                SlidingRole::Rook | SlidingRole::Bishop => 4nat,
                _ => 8nat,
            },
            forall|j: int|
                0 <= j < self.catalogue().len() ==> #[trigger] self.catalogue()[j] != Dir(
                    Idir::STILL,
                    Idir::STILL,
                ),
            forall|j: int, k: int|
                0 <= j < k < self.catalogue().len() ==> self.catalogue()[j] != self.catalogue()[k],
            self.lengths().len() == match self {
                SlidingRole::King | SlidingRole::Knight => 1nat,
                _ => 7nat,
            },
            forall|l: int| 0 <= l < self.lengths().len() ==> #[trigger] self.lengths()[l] == l + 1,
    {
    }
}

/// The five roles in the order of their keys.
pub fn all_sliding() -> (all: Vec<SlidingRole>)
    ensures
        all@.len() == 5,
        forall|i: int| 0 <= i < 5 ==> all@[i] == SlidingRole::at(i),
        forall|role: SlidingRole| all@[role.ord()] == role,
{
    vec![
        SlidingRole::King,
        SlidingRole::Queen,
        SlidingRole::Rook,
        SlidingRole::Bishop,
        SlidingRole::Knight,
    ]
}

} // verus!
