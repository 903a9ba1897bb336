//! The ray table: for every sliding role and every square, the rays of that role from that
//! square.

use crate::catalogue::{all_sliding, SlidingRole};
use crate::ray::{ray_on_board, Projection, Ray, RayView};
use crate::square::{all_pos, Dir, Pos};
use vstd::prelude::*;

verus! {

/// The contents of a list of rays.
pub open spec fn views(rays: Seq<Ray>) -> Seq<RayView> {
    rays.map_values(|ray: Ray| ray@)
}

/// For a number of steps, the ray of that many steps from `pos` along `dir`, if it stays on the
/// board.
pub open spec fn ray_toward(pos: Pos, dir: Dir) -> spec_fn(Projection) -> Option<RayView> {
    |n: Projection| ray_on_board(pos, dir, n as int)
}

/// For a direction, the rays from `pos` along it that stay on the board, one for each of
/// `lens` and in the order of `lens`.
pub open spec fn rays_toward(pos: Pos, lens: Seq<Projection>) -> spec_fn(Dir) -> Seq<RayView> {
    |dir: Dir| lens.filter_map(ray_toward(pos, dir))
}

/// The rays of `role` from `pos`: direction after direction in the order of the role's
/// catalogue, and within one direction by increasing number of steps.
pub open spec fn rays_from(role: SlidingRole, pos: Pos) -> Seq<RayView> {
    role.catalogue().flat_map(rays_toward(pos, role.lengths()))
}

/// The whole table as a map from role and square to rays.
pub open spec fn ray_table() -> Map<(SlidingRole, Pos), Seq<RayView>> {
    Map::new(
        |key: (SlidingRole, Pos)| true,
        |key: (SlidingRole, Pos)| rays_from(key.0, key.1),
    )
}

/// Listing the rays of one more direction appends that direction's rays.
pub proof fn lemma_rays_push_direction(
    pos: Pos,
    lens: Seq<Projection>,
    dirs: Seq<Dir>,
    dir: Dir,
)
    ensures
        dirs.push(dir).flat_map(rays_toward(pos, lens)) == dirs.flat_map(rays_toward(pos, lens))
            + lens.filter_map(ray_toward(pos, dir)),
{
    let f = rays_toward(pos, lens);
    assert(dirs.push(dir).map_values(f) =~= dirs.map_values(f).push(f(dir)));
    dirs.map_values(f).lemma_flatten_push(f(dir));
}

/// Computes the rays of `role` from `pos`: every direction of the role with every number of
/// steps of the role, keeping the rays that stay on the board.
pub fn collect_rays(role: SlidingRole, pos: Pos) -> (rays: Vec<Ray>)
    ensures
        views(rays@) == rays_from(role, pos),
{
    let dirs = role.directions();
    let lens = role.projections();
    let mut rays: Vec<Ray> = Vec::new();
    let ghost toward = rays_toward(pos, lens@);
    proof {
        assert(dirs@.take(0).map_values(toward) =~= Seq::<Seq<RayView>>::empty());
        assert(views(rays@) =~= Seq::<RayView>::empty());
    }
    for d in 0..dirs.len()
        invariant
            dirs@ == role.catalogue(),
            lens@ == role.lengths(),
            toward == rays_toward(pos, lens@),
            views(rays@) == dirs@.take(d as int).flat_map(toward),
    {
        let dir = dirs[d];
        let ghost done = dirs@.take(d as int).flat_map(toward);
        let ghost along = ray_toward(pos, dir);
        proof {
            assert(lens@.take(0).filter_map(along) =~= Seq::<RayView>::empty());
            assert(views(rays@) =~= done + lens@.take(0).filter_map(along));
        }
        for l in 0..lens.len()
            invariant
                along == ray_toward(pos, dir),
                views(rays@) == done + lens@.take(l as int).filter_map(along),
        {
            let ghost before = rays@;
            proof {
                lens@.lemma_filter_map_take_succ(along, l as int);
            }
            match Ray::new(pos, dir, lens[l]) {
                Some(ray) => {
                    rays.push(ray);
                    assert(views(rays@) =~= views(before).push(ray@));
                    assert(views(rays@) =~= done + lens@.take(l + 1).filter_map(along));
                },
                None => {
                    assert(views(rays@) =~= done + lens@.take(l + 1).filter_map(along));
                },
            }
        }
        proof {
            assert(lens@.take(lens@.len() as int) =~= lens@);
            assert(dirs@.take(d + 1) =~= dirs@.take(d as int).push(dir));
            lemma_rays_push_direction(pos, lens@, dirs@.take(d as int), dir);
        }
    }
    proof {
        assert(dirs@.take(dirs@.len() as int) =~= dirs@);
    }
    rays
}

/// The table of all rays: for each of the five roles and each of the 64 squares, the rays of the
/// role from the square. A table is made by `build` alone and never changes; every table holds
/// the same rays in the same order.
pub struct RayTable {
    cells: Vec<Vec<Vec<Ray>>>,
}

impl View for RayTable {
    type V = Map<(SlidingRole, Pos), Seq<RayView>>;

    closed spec fn view(&self) -> Map<(SlidingRole, Pos), Seq<RayView>> {
        Map::new(
            |key: (SlidingRole, Pos)| true,
            |key: (SlidingRole, Pos)| views(self.cells@[key.0.ord()]@[key.1.ord()]@),
        )
    }
}

impl RayTable {
    /// A table is whole: it has a row for each role, in each row a cell for each square, and in
    /// each cell the rays of that role from that square.
    #[verifier::type_invariant]
    pub closed spec fn wf(self) -> bool {
        &&& self.cells@.len() == 5
        &&& forall|r: int| 0 <= r < 5 ==> (#[trigger] self.cells@[r])@.len() == 64
        &&& forall|r: int, p: int|
            0 <= r < 5 && 0 <= p < 64 ==> views((#[trigger] self.cells@[r]@[p])@) == rays_from(
                SlidingRole::at(r),
                Pos::at(p),
            )
    }

    /// Builds the table: for every role and every square, the rays that `collect_rays` gives.
    pub fn build() -> (table: RayTable)
        ensures
            table.wf(),
            table@ == ray_table(),
    {
        let roles = all_sliding();
        let squares = all_pos();
        let mut cells: Vec<Vec<Vec<Ray>>> = Vec::new();
        for r in 0..roles.len()
            invariant
                roles@.len() == 5,
                forall|i: int| 0 <= i < 5 ==> roles@[i] == SlidingRole::at(i),
                squares@.len() == 64,
                forall|i: int| 0 <= i < 64 ==> squares@[i] == Pos::at(i),
                cells@.len() == r,
                forall|i: int| 0 <= i < r ==> (#[trigger] cells@[i])@.len() == 64,
                forall|i: int, p: int|
                    0 <= i < r && 0 <= p < 64 ==> views((#[trigger] cells@[i]@[p])@) == rays_from(
                        SlidingRole::at(i),
                        Pos::at(p),
                    ),
        {
            let role = roles[r];
            let mut row: Vec<Vec<Ray>> = Vec::new();
            for p in 0..squares.len()
                invariant
                    role == SlidingRole::at(r as int),
                    squares@.len() == 64,
                    forall|i: int| 0 <= i < 64 ==> squares@[i] == Pos::at(i),
                    row@.len() == p,
                    forall|i: int|
                        0 <= i < p ==> views((#[trigger] row@[i])@) == rays_from(role, Pos::at(i)),
            {
                row.push(collect_rays(role, squares[p]));
            }
            cells.push(row);
        }
        let table = RayTable { cells };
        proof {
            table.lemma_whole();
        }
        table
    }

    /// The rays of `role` from `square`.
    pub fn get(&self, role: SlidingRole, square: Pos) -> (rays: &Vec<Ray>)
        ensures
            views(rays@) == rays_from(role, square),
            views(rays@) == self@[(role, square)],
            self@ == ray_table(),
    {
        proof {
            use_type_invariant(self);
            role.lemma_index_bijective(role, 0);
            square.lemma_index_bijective(square, 0);
            self.lemma_whole();
        }
        &self.cells[role.index()][square.index()]
    }

    /// A whole table is the table of all rays.
    pub proof fn lemma_whole(self)
        requires
            self.wf(),
        ensures
            self@ == ray_table(),
    {
        assert forall|key: (SlidingRole, Pos)| #[trigger] self@[key] == ray_table()[key] by {
            key.0.lemma_index_bijective(key.0, 0);
            key.1.lemma_index_bijective(key.1, 0);
        }
        assert(self@ =~= ray_table());
    }

    /// Two tables, however and whenever they were built, hold the same rays in the same order.
    pub proof fn lemma_tables_agree(self, other: RayTable)
        requires
            self.wf(),
            other.wf(),
        ensures
            self@ == other@,
            forall|role: SlidingRole, square: Pos|
                #[trigger] self@[(role, square)] == rays_from(role, square),
    {
        self.lemma_whole();
        other.lemma_whole();
    }
}

} // verus!
