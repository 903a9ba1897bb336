//! Rays: the squares that a piece passes on its way from one square to another.

use crate::square::{Dir, Pos};
use vstd::prelude::*;

verus! {

/// The number of steps that a ray takes along its direction. A ray takes at least one.
pub type Projection = u8;

/// A ray on the board: where it starts, where it ends, and the squares passed in between, in the
/// order of travel and without the two ends.
#[derive(Debug)]
pub struct Ray {
    pub orig: Pos,
    pub dest: Pos,
    pub between: Vec<Pos>,
}

/// The mathematical content of a `Ray`.
pub struct RayView {
    pub orig: Pos,
    pub dest: Pos,
    pub between: Seq<Pos>,
}

impl View for Ray {
    type V = RayView;

    open spec fn view(&self) -> RayView {
        RayView { orig: self.orig, dest: self.dest, between: self.between@ }
    }
}

/// The ray of `n` steps from `pos` along `dir`: it ends `n` steps away and passes the squares
/// that are 1, 2, .., `n - 1` steps away.
pub open spec fn ray_along(pos: Pos, dir: Dir, n: int) -> RayView {
    RayView {
        orig: pos,
        dest: pos.shifted(dir, n),
        between: Seq::new((n - 1) as nat, |i: int| pos.shifted(dir, i + 1)),
    }
}

/// The ray of `n` steps from `pos` along `dir`, if there is one: `n` is at least 1 and the
/// `n`-th step ends on the board.
pub open spec fn ray_on_board(pos: Pos, dir: Dir, n: int) -> Option<RayView> {
    if n >= 1 && pos.reaches(dir, n) {
        Some(ray_along(pos, dir, n))
    } else {
        None
    }
}

impl Ray {
    /// Builds the ray of `projection` steps from `pos` along `dir`, one step at a time. The ray
    /// exists exactly when `projection` is at least 1 and its last step ends on the board. A
    /// walk that leaves the board at any step gives `None`, never a shorter ray.
    pub fn new(pos: Pos, dir: Dir, projection: Projection) -> (built: Option<Ray>)
        ensures
            built is Some <==> projection >= 1 && pos.reaches(dir, projection as int),
            (exists|k: int| 1 <= k <= projection && !pos.reaches(dir, k)) ==> built is None,
            match built {
                Some(ray) => ray_on_board(pos, dir, projection as int) == Some(ray@),
                None => ray_on_board(pos, dir, projection as int) is None,
            },
            built matches Some(ray) ==> ray.between@.len() == projection - 1,
    {
        if projection == 0 {
            return None;
        }
        let orig = pos;
        let mut between: Vec<Pos> = Vec::new();
        let mut next = pos;
        proof {
            pos.lemma_shifted_step(dir, 0);
        }
        for i in 1..projection
            invariant
                1 <= projection,
                next == pos.shifted(dir, i - 1),
                pos.reaches(dir, i - 1),
                between@.len() == i - 1,
                forall|j: int| 0 <= j < i - 1 ==> between@[j] == pos.shifted(dir, j + 1),
        {
            proof {
                pos.lemma_shifted_step(dir, i - 1);
            }
            match next + dir {
                Some(stepped) => {
                    next = stepped;
                    between.push(next);
                },
                None => {
                    proof {
                        if pos.reaches(dir, projection as int) {
                            pos.lemma_reaches_earlier(dir, projection as int, i as int);
                        }
                    }
                    return None;
                },
            }
        }
        proof {
            pos.lemma_shifted_step(dir, projection - 1);
            assert forall|k: int| 1 <= k <= projection && pos.reaches(
                dir,
                projection as int,
            ) implies pos.reaches(dir, k) by {
                pos.lemma_reaches_earlier(dir, projection as int, k);
            }
        }
        match next + dir {
            Some(dest) => {
                let ray = Ray { orig, dest, between };
                assert(ray@.between =~= ray_along(pos, dir, projection as int).between);
                Some(ray)
            },
            None => None,
        }
    }
}

/// Every square of a ray lies along its direction: the `i`-th square in between is `i + 1` steps
/// from the origin and the destination is `n` steps from it, all of them on the board.
pub proof fn lemma_ray_lies_along(pos: Pos, dir: Dir, n: int)
    requires
        n >= 1,
        pos.reaches(dir, n),
    ensures
        ray_along(pos, dir, n).orig == pos,
        ray_along(pos, dir, n).between.len() == n - 1,
        ray_along(pos, dir, n).dest.file.ord() == pos.file.ord() + n * dir.0.delta(),
        ray_along(pos, dir, n).dest.rank.ord() == pos.rank.ord() + n * dir.1.delta(),
        forall|i: int|
            0 <= i < n - 1 ==> {
                let passed = #[trigger] ray_along(pos, dir, n).between[i];
                &&& passed.file.ord() == pos.file.ord() + (i + 1) * dir.0.delta()
                &&& passed.rank.ord() == pos.rank.ord() + (i + 1) * dir.1.delta()
            },
{
    pos.lemma_shifted_coordinates(dir, n);
    assert forall|i: int| 0 <= i < n - 1 implies {
        let passed = #[trigger] ray_along(pos, dir, n).between[i];
        &&& passed.file.ord() == pos.file.ord() + (i + 1) * dir.0.delta()
        &&& passed.rank.ord() == pos.rank.ord() + (i + 1) * dir.1.delta()
    } by {
        pos.lemma_reaches_earlier(dir, n, i + 1);
        pos.lemma_shifted_coordinates(dir, i + 1);
    }
}

} // verus!
