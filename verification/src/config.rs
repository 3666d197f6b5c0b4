//! Startup configuration constants shared by every component.
//!
//! Every field buffer and every dispatch of one simulation must agree on the
//! grid shape, so the grid side length is declared once here and injected at
//! construction time rather than re-declared per component.

use vstd::prelude::*;

verus! {

/// Side length of the simulation grid in voxels.  The grid is a cube of
/// `GRID_DIMENSION_LENGTH` voxels per axis.
pub const GRID_DIMENSION_LENGTH: u32 = 64;

/// Number of threads per axis in one compute thread group.  A grid dimension
/// that is not divisible by this value is a startup-time configuration error.
pub const THREAD_GROUP_SIZE: u32 = 4;

/// Fixed-point scale used for the one-shot source-injection strength: the
/// value `INJECT_STRENGTH_FULL` stands for a strength of one, `0` for none.
/// The application divides by this scale when it uploads the parameter block.
pub const INJECT_STRENGTH_FULL: u32 = 65536;

} // verus!
