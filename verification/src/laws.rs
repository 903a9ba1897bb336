//! What holds of the rays in the table, whatever the role and the square.

use crate::catalogue::{king_steps, short_projections, SlidingRole};
use crate::ray::{ray_along, ray_on_board, Projection, RayView};
use crate::square::{Dir, Pos};
use crate::table::{lemma_rays_push_direction, ray_toward, rays_from, rays_toward};
use vstd::prelude::*;
use vstd::seq_lib::lemma_seq_concat_contains_all_elements;

verus! {

/// An item is in the concatenation of some lists exactly when it is in one of the lists.
proof fn lemma_flatten_contains<A>(lists: Seq<Seq<A>>, item: A)
    ensures
        lists.flatten().contains(item) <==> exists|i: int|
            0 <= i < lists.len() && (#[trigger] lists[i]).contains(item),
    decreases lists.len(),
{
    if lists.len() > 0 {
        let front = lists.drop_last();
        let last = lists.last();
        assert(lists =~= front.push(last));
        front.lemma_flatten_push(last);
        lemma_flatten_contains(front, item);
        lemma_seq_concat_contains_all_elements(front.flatten(), last, item);
        if lists.flatten().contains(item) {
            if last.contains(item) {
                assert(lists[lists.len() - 1].contains(item));
            } else {
                let i = choose|i: int| 0 <= i < front.len() && (#[trigger] front[i]).contains(item);
                assert(lists[i].contains(item));
            }
        }
        if exists|i: int| 0 <= i < lists.len() && (#[trigger] lists[i]).contains(item) {
            let i = choose|i: int| 0 <= i < lists.len() && (#[trigger] lists[i]).contains(item);
            if i < front.len() {
                assert(front[i].contains(item));
            }
        }
    }
}

/// What `filter_map` keeps: the results of `f` on the items of the list, and nothing else.
proof fn lemma_filter_map_contains_iff<A, B>(items: Seq<A>, f: spec_fn(A) -> Option<B>, found: B)
    ensures
        items.filter_map(f).contains(found) <==> exists|i: int|
            0 <= i < items.len() && f(#[trigger] items[i]) == Some(found),
    decreases items.len(),
{
    if items.len() > 0 {
        let front = items.drop_last();
        let last = items.last();
        lemma_filter_map_contains_iff(front, f, found);
        let kept = match f(last) {
            Some(b) => seq![b],
            None => Seq::empty(),
        };
        assert(items.filter_map(f) =~= front.filter_map(f) + kept);
        lemma_seq_concat_contains_all_elements(front.filter_map(f), kept, found);
        if items.filter_map(f).contains(found) {
            if kept.contains(found) {
                assert(f(items[items.len() - 1]) == Some(found));
            } else {
                let i = choose|i: int| 0 <= i < front.len() && f(#[trigger] front[i]) == Some(found);
                assert(f(items[i]) == Some(found));
            }
        }
        if exists|i: int| 0 <= i < items.len() && f(#[trigger] items[i]) == Some(found) {
            let i = choose|i: int| 0 <= i < items.len() && f(#[trigger] items[i]) == Some(found);
            if i < front.len() {
                assert(f(front[i]) == Some(found));
            } else {
                assert(kept[0] == found);
            }
        }
    }
}

/// `filter_map` gives at most one result for each item.
proof fn lemma_filter_map_len<A, B>(items: Seq<A>, f: spec_fn(A) -> Option<B>)
    ensures
        items.filter_map(f).len() <= items.len(),
    decreases items.len(),
{
    if items.len() > 0 {
        lemma_filter_map_len(items.drop_last(), f);
    }
}

/// The table is exact: a ray is listed for a role and a square if and only if it is the ray
/// from that square along one of the role's directions, of one of the role's numbers of steps,
/// and stays on the board.
pub proof fn lemma_rays_from_contains(role: SlidingRole, pos: Pos, ray: RayView)
    ensures
        rays_from(role, pos).contains(ray) <==> exists|dir: Dir, n: Projection|
            #![trigger role.catalogue().contains(dir), role.lengths().contains(n)]
            role.catalogue().contains(dir) && role.lengths().contains(n) && ray_on_board(
                pos,
                dir,
                n as int,
            ) == Some(ray),
{
    let dirs = role.catalogue();
    let lens = role.lengths();
    let toward = rays_toward(pos, lens);
    let lists = dirs.map_values(toward);
    lemma_flatten_contains(lists, ray);
    if rays_from(role, pos).contains(ray) {
        let j = choose|j: int| 0 <= j < lists.len() && (#[trigger] lists[j]).contains(ray);
        let dir = dirs[j];
        lemma_filter_map_contains_iff(lens, ray_toward(pos, dir), ray);
        let l = choose|l: int|
            0 <= l < lens.len() && ray_toward(pos, dir)(#[trigger] lens[l]) == Some(ray);
        assert(dirs.contains(dir) && lens.contains(lens[l]));
    }
    if exists|dir: Dir, n: Projection|
        #![trigger dirs.contains(dir), lens.contains(n)]
        dirs.contains(dir) && lens.contains(n) && ray_on_board(pos, dir, n as int) == Some(ray) {
        let (dir, n) = choose|dir: Dir, n: Projection|
            #![trigger dirs.contains(dir), lens.contains(n)]
            dirs.contains(dir) && lens.contains(n) && ray_on_board(pos, dir, n as int) == Some(
                ray,
            );
        let j = choose|j: int| 0 <= j < dirs.len() && dirs[j] == dir;
        let l = choose|l: int| 0 <= l < lens.len() && lens[l] == n;
        lemma_filter_map_contains_iff(lens, ray_toward(pos, dir), ray);
        assert(ray_toward(pos, dir)(lens[l]) == Some(ray));
        assert(lists[j].contains(ray));
    }
}

/// Every ray listed for a square starts at that square.
pub proof fn lemma_rays_from_origin(role: SlidingRole, pos: Pos, i: int)
    requires
        0 <= i < rays_from(role, pos).len(),
    ensures
        rays_from(role, pos)[i].orig == pos,
{
    let ray = rays_from(role, pos)[i];
    assert(rays_from(role, pos).contains(ray));
    lemma_rays_from_contains(role, pos, ray);
}

/// No square has more rays than its role has pairs of direction and number of steps: at most 8
/// for king and knight, 28 for rook and bishop, 56 for the queen.
pub proof fn lemma_ray_count_bound(role: SlidingRole, pos: Pos)
    ensures
        rays_from(role, pos).len() <= role.catalogue().len() * role.lengths().len(),
        rays_from(role, pos).len() <= match role {
            SlidingRole::King | SlidingRole::Knight => 8nat,
            SlidingRole::Rook | SlidingRole::Bishop => 28nat,
            SlidingRole::Queen => 56nat,
        },
{
    let dirs = role.catalogue();
    let lens = role.lengths();
    let lists = dirs.map_values(rays_toward(pos, lens));
    assert forall|j: int| 0 <= j < lists.len() implies (#[trigger] lists[j]).len()
        <= lens.len() by {
        lemma_filter_map_len(lens, ray_toward(pos, dirs[j]));
    }
    lists.lemma_flatten_length_le_mul(lens.len() as int);
    lists.lemma_flatten_and_flatten_alt_are_equivalent();
    role.lemma_catalogue_shape();
    let pairs = dirs.len() * lens.len();
    assert(pairs == 8 || pairs == 28 || pairs == 56) by (nonlinear_arith)
        requires
            pairs == dirs.len() * lens.len(),
            dirs.len() == 4 || dirs.len() == 8,
            lens.len() == 1 || lens.len() == 7,
            dirs.len() == 4 ==> lens.len() == 7,
    ;
}

/// A king has eight rays of one step from a square in the middle of the board, five from a
/// square on one edge and three from a corner: fewer than eight next to an edge, and never more.
pub proof fn lemma_king_ray_count(pos: Pos)
    ensures
        rays_from(SlidingRole::King, pos).len() == if pos.on_edge_file() && pos.on_edge_rank() {
            3nat
        } else if pos.on_edge_file() || pos.on_edge_rank() {
            5nat
        } else {
            8nat
        },
{
    let lens = short_projections();
    let dirs = king_steps();
    let toward = rays_toward(pos, lens);
    let s0 = Seq::<Dir>::empty();
    let s1 = s0.push(dirs[0]);
    let s2 = s1.push(dirs[1]);
    let s3 = s2.push(dirs[2]);
    let s4 = s3.push(dirs[3]);
    let s5 = s4.push(dirs[4]);
    let s6 = s5.push(dirs[5]);
    let s7 = s6.push(dirs[6]);
    let s8 = s7.push(dirs[7]);
    assert(s8 =~= dirs);
    assert(s0.map_values(toward) =~= Seq::<Seq<RayView>>::empty());
    assert(s0.flat_map(toward).len() == 0);
    lemma_rays_push_direction(pos, lens, s0, dirs[0]);
    lemma_rays_push_direction(pos, lens, s1, dirs[1]);
    lemma_rays_push_direction(pos, lens, s2, dirs[2]);
    lemma_rays_push_direction(pos, lens, s3, dirs[3]);
    lemma_rays_push_direction(pos, lens, s4, dirs[4]);
    lemma_rays_push_direction(pos, lens, s5, dirs[5]);
    lemma_rays_push_direction(pos, lens, s6, dirs[6]);
    lemma_rays_push_direction(pos, lens, s7, dirs[7]);
    assert forall|j: int| 0 <= j < 8 implies lens.filter_map(ray_toward(pos, #[trigger] dirs[j])).len()
        == if pos.reaches(dirs[j], 1) {
        1nat
    } else {
        0nat
    } by {
        Seq::lemma_filter_map_singleton(1u8, ray_toward(pos, dirs[j]));
        assert(lens =~= seq![1u8]);
    }
    let on = |j: int| if pos.reaches(dirs[j], 1) { 1nat } else { 0nat };
    assert(rays_from(SlidingRole::King, pos).len() == on(0) + on(1) + on(2) + on(3) + on(4) + on(5)
        + on(6) + on(7));
}

/// Rays along one direction extend one another: the squares that the shorter ray passes are the
/// first that the longer one passes, and the longer one goes on through the end of the shorter.
pub proof fn lemma_longer_ray_extends(pos: Pos, dir: Dir, n: int, m: int)
    requires
        1 <= n < m,
    ensures
        ray_along(pos, dir, n).between == ray_along(pos, dir, m).between.take(n - 1),
        ray_along(pos, dir, n).dest == ray_along(pos, dir, m).between[n - 1],
{
    assert(ray_along(pos, dir, n).between =~= ray_along(pos, dir, m).between.take(n - 1));
}

} // verus!
