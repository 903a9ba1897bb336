//! Precomputed ray tables for the sliding pieces of chess.

pub mod catalogue;
pub mod coord;
pub mod laws;
pub mod lazy;
pub mod mobility;
pub mod ray;
pub mod square;
pub mod table;

pub use catalogue::{all_sliding, SlidingRole};
pub use coord::{File, Idir, Rank, Upos};
pub use lazy::LazyRayTable;
pub use mobility::{HasBlocks, HasCapture, HasOrigDest, HasPromote, Mobility, PromotingRole, Role};
pub use ray::{Projection, Ray, RayView};
pub use square::{all_pos, all_upos, Dir, Pos};
pub use table::{collect_rays, RayTable};
