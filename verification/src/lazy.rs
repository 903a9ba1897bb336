//! A ray table that is built when it is first asked for.

use crate::catalogue::SlidingRole;
use crate::ray::Ray;
use crate::square::Pos;
use crate::table::{ray_table, rays_from, views, RayTable};
use once_cell::sync::OnceCell;
use vstd::prelude::*;

verus! {

/// `OnceCell` of once_cell, the thread-safe one: a cell that is written at most once. What it
/// holds is not visible to proofs.
#[verifier::external_type_specification]
#[verifier::external_body]
#[verifier::reject_recursive_types(T)]
pub struct ExOnceCell<T>(OnceCell<T>);

/// `OnceCell::new` of once_cell: a cell that holds nothing yet. Nothing is claimed of it.
pub assume_specification<T>[ OnceCell::<T>::new ]() -> (cell: OnceCell<T>);

/// `OnceCell::get_or_init` of once_cell, with `RayTable::build` as the function that fills an
/// empty cell. The cell hands out the table that it holds, after building one if it held none;
/// once_cell sees to it that this happens at most once, also among threads. Nothing is claimed
/// of the table that comes back: that it is whole is known of every `RayTable`.
/// `RayTable::build` neither panics nor touches the cell, so the call returns.
#[verifier::external_body]
fn get_or_build(cell: &OnceCell<RayTable>) -> (table: &RayTable) {
    cell.get_or_init(RayTable::build)
}

/// A ray table behind a one-time guard. It starts out unbuilt; the first read builds the table,
/// and every later read, from any thread, sees that same table.
pub struct LazyRayTable {
    cell: OnceCell<RayTable>,
}

impl LazyRayTable {
    /// A table that is not built yet.
    pub fn new() -> (lazy: LazyRayTable) {
        LazyRayTable { cell: OnceCell::new() }
    }

    /// The table, built now if this is the first read.
    pub fn force(&self) -> (table: &RayTable)
        ensures
            table@ == ray_table(),
    {
        let table = get_or_build(&self.cell);
        proof {
            use_type_invariant(table);
            table.lemma_whole();
        }
        table
    }

    /// The rays of `role` from `square`, from the table that is built on the first read.
    pub fn get(&self, role: SlidingRole, square: Pos) -> (rays: &Vec<Ray>)
        ensures
            views(rays@) == rays_from(role, square),
    {
        self.force().get(role, square)
    }
}

} // verus!
