//! One axis of the board: the eight coordinates and the signed steps along them.

use std::ops::Add;
use vstd::prelude::*;
use vstd::std_specs::ops::AddSpecImpl;

verus! {

/// A coordinate on one axis of the board, `A` the lowest and `H` the highest.
#[derive(Debug, PartialEq, Eq, Structural, Copy, Clone)]
pub enum Upos {
    A,
    B,
    C,
    D,
    E,
    F,
    G,
    H,
}

pub type File = Upos;

pub type Rank = Upos;

/// A signed step along one axis, of at most two.
#[allow(non_camel_case_types)]
#[derive(Debug, PartialEq, Eq, Structural, Copy, Clone)]
pub enum Idir {
    STILL,
    UP,
    DOWN,
    UP2,
    DOWN2,
}

/// Whether the integer `i` is a coordinate of the board.
pub open spec fn on_axis(i: int) -> bool {
    0 <= i <= 7
}

impl Idir {
    /// The signed length of the step.
    pub open spec fn delta(self) -> int {
        match self {
            Idir::STILL => 0,
            Idir::UP => 1,
            Idir::DOWN => -1,
            Idir::UP2 => 2,
            Idir::DOWN2 => -2,
        }
    }

    /// The distance covered by `k` such steps, `k * self.delta()`, written without a product.
    pub open spec fn times(self, k: int) -> int {
        match self {
            Idir::STILL => 0,
            Idir::UP => k,
            Idir::DOWN => -k,
            Idir::UP2 => k + k,
            Idir::DOWN2 => -k - k,
        }
    }

    /// `times` is the product of the count and the step.
    pub proof fn lemma_times_is_product(self, k: int)
        ensures
            self.times(k) == k * self.delta(),
            self.times(0) == 0,
            self.times(1) == self.delta(),
            self.times(k + 1) == self.times(k) + self.delta(),
    {
    }
}

impl Upos {
    /// The place of the coordinate on its axis: 0 for `A`, 7 for `H`.
    pub open spec fn ord(self) -> int {
        match self {
            Upos::A => 0,
            Upos::B => 1,
            Upos::C => 2,
            Upos::D => 3,
            Upos::E => 4,
            Upos::F => 5,
            Upos::G => 6,
            Upos::H => 7,
        }
    }

    /// The coordinate at place `i`. Outside 0..=7 the nearest end is taken, so that the function is
    /// total; contracts use it only where `on_axis(i)`.
    pub open spec fn at(i: int) -> Upos {
        if i <= 0 {
            Upos::A
        } else if i == 1 {
            Upos::B
        } else if i == 2 {
            Upos::C
        } else if i == 3 {
            Upos::D
        } else if i == 4 {
            Upos::E
        } else if i == 5 {
            Upos::F
        } else if i == 6 {
            Upos::G
        } else {
            Upos::H
        }
    }

    /// The coordinate one step of `dir` away, or `None` where that step leaves the axis.
    pub open spec fn stepped(self, dir: Idir) -> Option<Upos> {
        if on_axis(self.ord() + dir.delta()) {
            Some(Upos::at(self.ord() + dir.delta()))
        } else {
            None
        }
    }

    /// Whether the point `k` steps of `dir` away from this coordinate is on the axis.
    pub open spec fn reaches(self, dir: Idir, k: int) -> bool {
        on_axis(self.ord() + dir.times(k))
    }

    /// The coordinate `k` steps of `dir` away; meant for the `k` with `self.reaches(dir, k)`.
    pub open spec fn shifted(self, dir: Idir, k: int) -> Upos {
        Upos::at(self.ord() + dir.times(k))
    }

    /// `ord` and `at` are inverse to each other on the eight coordinates.
    pub proof fn lemma_ord_at(self, i: int)
        ensures
            on_axis(self.ord()),
            Upos::at(self.ord()) == self,
            on_axis(i) ==> Upos::at(i).ord() == i,
    {
    }

    /// Walking is stepping repeatedly: no step leads back to the start, and from the coordinate
    /// `k` steps away one more step arrives `k + 1` steps away, or leaves the axis.
    pub proof fn lemma_shifted_step(self, dir: Idir, k: int)
        requires
            self.reaches(dir, k),
        ensures
            self.shifted(dir, 0) == self,
            self.shifted(dir, k).ord() == self.ord() + dir.times(k),
            self.shifted(dir, k).stepped(dir) == if self.reaches(dir, k + 1) {
                Some(self.shifted(dir, k + 1))
            } else {
                None
            },
    {
        let here = self.ord() + dir.times(k);
        self.lemma_ord_at(here);
        dir.lemma_times_is_product(k);
        assert(self.shifted(dir, k).ord() == here);
        assert(self.ord() + dir.times(k + 1) == here + dir.delta());
    }

    /// The axis is convex: a walk that ends on it has stayed on it at every step before.
    pub proof fn lemma_reaches_earlier(self, dir: Idir, n: int, k: int)
        requires
            0 <= k <= n,
            self.reaches(dir, n),
        ensures
            self.reaches(dir, k),
    {
    }

    /// The place of the coordinate as a machine integer.
    pub fn index(self) -> (i: usize)
        ensures
            i == self.ord(),
    {
        match self {
            Upos::A => 0,
            Upos::B => 1,
            Upos::C => 2,
            Upos::D => 3,
            Upos::E => 4,
            Upos::F => 5,
            Upos::G => 6,
            Upos::H => 7,
        }
    }
}

impl AddSpecImpl<Idir> for Upos {
    open spec fn obeys_add_spec() -> bool {
        true
    }

    open spec fn add_req(self, dir: Idir) -> bool {
        true
    }

    open spec fn add_spec(self, dir: Idir) -> Option<Upos> {
        self.stepped(dir)
    }
}

impl Add<Idir> for Upos {
    type Output = Option<Upos>;

    /// Moves the coordinate by one step of `dir`. Every pair of coordinate and step has its own arm;
    /// a step that would leave the axis gives `None` and is never clamped to the edge.
    fn add(self, dir: Idir) -> (moved: Option<Upos>)
        ensures
            moved == self.stepped(dir),
            moved is None <==> !on_axis(self.ord() + dir.delta()),
            moved matches Some(u) ==> u.ord() == self.ord() + dir.delta(),
    {
        match dir {
            Idir::STILL => Some(self),
            Idir::UP => match self {
                Upos::H => None,
                Upos::G => Some(Upos::H),
                Upos::F => Some(Upos::G),
                Upos::E => Some(Upos::F),
                Upos::D => Some(Upos::E),
                Upos::C => Some(Upos::D),
                Upos::B => Some(Upos::C),
                Upos::A => Some(Upos::B),
            },
            Idir::UP2 => match self {
                Upos::G | Upos::H => None,
                Upos::F => Some(Upos::H),
                Upos::E => Some(Upos::G),
                Upos::D => Some(Upos::F),
                Upos::C => Some(Upos::E),
                Upos::B => Some(Upos::D),
                Upos::A => Some(Upos::C),
            },
            Idir::DOWN => match self {
                Upos::A => None,
                Upos::B => Some(Upos::A),
                Upos::C => Some(Upos::B),
                Upos::D => Some(Upos::C),
                Upos::E => Some(Upos::D),
                Upos::F => Some(Upos::E),
                Upos::G => Some(Upos::F),
                Upos::H => Some(Upos::G),
            },
            Idir::DOWN2 => match self {
                Upos::A | Upos::B => None,
                Upos::C => Some(Upos::A),
                Upos::D => Some(Upos::B),
                Upos::E => Some(Upos::C),
                Upos::F => Some(Upos::D),
                Upos::G => Some(Upos::E),
                Upos::H => Some(Upos::F),
            },
        }
    }
}

} // verus!
