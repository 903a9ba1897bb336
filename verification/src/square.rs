//! Squares of the board, the directions a piece moves in, and the dense index of a square.

use crate::coord::{on_axis, File, Idir, Rank, Upos};
use std::ops::Add;
use vstd::prelude::*;
use vstd::std_specs::ops::AddSpecImpl;

verus! {

/// A square of the board. Both coordinates are on the board by construction.
#[derive(Debug, PartialEq, Eq, Structural, Copy, Clone)]
pub struct Pos {
    pub file: File,
    pub rank: Rank,
}

/// A direction of movement: the step along the files, then the step along the ranks.
#[derive(Debug, PartialEq, Eq, Structural, Copy, Clone)]
pub struct Dir(pub Idir, pub Idir);

impl Pos {
    pub fn new(file: File, rank: Rank) -> (pos: Pos)
        ensures
            pos == (Pos { file, rank }),
    {
        Pos { file, rank }
    }

    /// The dense index of the square: eight times the place of its file, plus the place of its
    /// rank.
    pub open spec fn ord(self) -> int {
        self.file.ord() * 8 + self.rank.ord()
    }

    /// The square with dense index `i`, for `i` in 0..=63.
    pub open spec fn at(i: int) -> Pos {
        Pos { file: Upos::at(i / 8), rank: Upos::at(i % 8) }
    }

    /// The square one step of `dir` away, or `None` where either axis leaves the board.
    pub open spec fn stepped(self, dir: Dir) -> Option<Pos> {
        match (self.file.stepped(dir.0), self.rank.stepped(dir.1)) {
            (Some(file), Some(rank)) => Some(Pos { file, rank }),
            _ => None,
        }
    }

    /// Whether the point `k` steps of `dir` away from this square is on the board.
    pub open spec fn reaches(self, dir: Dir, k: int) -> bool {
        self.file.reaches(dir.0, k) && self.rank.reaches(dir.1, k)
    }

    /// The square `k` steps of `dir` away; meant for the `k` with `self.reaches(dir, k)`.
    pub open spec fn shifted(self, dir: Dir, k: int) -> Pos {
        Pos { file: self.file.shifted(dir.0, k), rank: self.rank.shifted(dir.1, k) }
    }

    /// Whether the square is on the lowest or the highest file.
    pub open spec fn on_edge_file(self) -> bool {
        self.file == Upos::A || self.file == Upos::H
    }

    /// Whether the square is on the lowest or the highest rank.
    pub open spec fn on_edge_rank(self) -> bool {
        self.rank == Upos::A || self.rank == Upos::H
    }

    /// The dense index of the square, the key under which tables store it.
    pub fn index(self) -> (i: usize)
        ensures
            i == self.ord(),
            i < 64,
    {
        self.file.index() * 8 + self.rank.index()
    }

    /// The dense index is a bijection between the squares and 0..=63: it stays in that range,
    /// `at` undoes it in both directions, and no two squares share an index.
    pub proof fn lemma_index_bijective(self, other: Pos, i: int)
        ensures
            0 <= self.ord() < 64,
            Pos::at(self.ord()) == self,
            0 <= i < 64 ==> Pos::at(i).ord() == i,
            self.ord() == other.ord() ==> self == other,
    {
    }

    /// A square that is `k` steps along `dir` lies at the coordinates of the origin plus `k`
    /// times the steps of `dir`.
    pub proof fn lemma_shifted_coordinates(self, dir: Dir, k: int)
        requires
            self.reaches(dir, k),
        ensures
            self.shifted(dir, k).file.ord() == self.file.ord() + k * dir.0.delta(),
            self.shifted(dir, k).rank.ord() == self.rank.ord() + k * dir.1.delta(),
    {
        self.file.lemma_shifted_step(dir.0, k);
        self.rank.lemma_shifted_step(dir.1, k);
        dir.0.lemma_times_is_product(k);
        dir.1.lemma_times_is_product(k);
    }

    /// Walking is stepping repeatedly: no step leads back to the origin, and from the square `k`
    /// steps away one more step arrives `k + 1` steps away, or leaves the board.
    pub proof fn lemma_shifted_step(self, dir: Dir, k: int)
        requires
            self.reaches(dir, k),
        ensures
            self.shifted(dir, 0) == self,
            self.shifted(dir, k).stepped(dir) == if self.reaches(dir, k + 1) {
                Some(self.shifted(dir, k + 1))
            } else {
                None
            },
    {
        self.file.lemma_shifted_step(dir.0, k);
        self.rank.lemma_shifted_step(dir.1, k);
    }

    /// The board is convex along a direction: a walk that ends on the board has stayed on it at
    /// every step before.
    pub proof fn lemma_reaches_earlier(self, dir: Dir, n: int, k: int)
        requires
            0 <= k <= n,
            self.reaches(dir, n),
        ensures
            self.reaches(dir, k),
    {
        self.file.lemma_reaches_earlier(dir.0, n, k);
        self.rank.lemma_reaches_earlier(dir.1, n, k);
    }
}

impl AddSpecImpl<Dir> for Pos {
    open spec fn obeys_add_spec() -> bool {
        true
    }

    open spec fn add_req(self, dir: Dir) -> bool {
        true
    }

    open spec fn add_spec(self, dir: Dir) -> Option<Pos> {
        self.stepped(dir)
    }
}

impl Add<Dir> for Pos {
    type Output = Option<Pos>;

    /// Moves the square by one step of `dir`. There is a result exactly when both axes stay on
    /// the board.
    fn add(self, dir: Dir) -> (moved: Option<Pos>)
        ensures
            moved == self.stepped(dir),
            moved is None <==> !on_axis(self.file.ord() + dir.0.delta()) || !on_axis(
                self.rank.ord() + dir.1.delta(),
            ),
            moved matches Some(p) ==> p.file.ord() == self.file.ord() + dir.0.delta()
                && p.rank.ord() == self.rank.ord() + dir.1.delta(),
    {
        match self.file + dir.0 {
            Some(file) => match self.rank + dir.1 {
                Some(rank) => Some(Pos::new(file, rank)),
                None => None,
            },
            None => None,
        }
    }
}

/// The eight coordinates of an axis, lowest first.
pub fn all_upos() -> (all: Vec<Upos>)
    ensures
        all@.len() == 8,
        forall|i: int| 0 <= i < 8 ==> all@[i] == Upos::at(i),
{
    vec![Upos::A, Upos::B, Upos::C, Upos::D, Upos::E, Upos::F, Upos::G, Upos::H]
}

/// The 64 squares in the order of their dense index: file by file, and within a file rank by
/// rank.
pub fn all_pos() -> (all: Vec<Pos>)
    ensures
        all@.len() == 64,
        forall|i: int| 0 <= i < 64 ==> all@[i] == Pos::at(i),
        forall|p: Pos| all@[p.ord()] == p,
{
    let axis = all_upos();
    let mut all: Vec<Pos> = Vec::new();
    for f in 0..8usize
        invariant
            axis@.len() == 8,
            forall|i: int| 0 <= i < 8 ==> axis@[i] == Upos::at(i),
            all@.len() == f * 8,
            forall|i: int| 0 <= i < f * 8 ==> all@[i] == Pos::at(i),
    {
        for r in 0..8usize
            invariant
                f < 8,
                axis@.len() == 8,
                forall|i: int| 0 <= i < 8 ==> axis@[i] == Upos::at(i),
                all@.len() == f * 8 + r,
                forall|i: int| 0 <= i < f * 8 + r ==> all@[i] == Pos::at(i),
        {
            all.push(Pos::new(axis[f], axis[r]));
        }
    }
    proof {
        assert forall|p: Pos| all@[p.ord()] == p by {
            p.lemma_index_bijective(p, 0);
        }
    }
    all
}

} // verus!
