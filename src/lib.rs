use vstd::prelude::*;

pub mod context;
pub mod frame;
pub mod geometry;
pub mod render_loop;
pub mod surface;

verus! {

} // verus!
