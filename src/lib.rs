//! The integer side of a stochastic ray tracer: the composite surface and its
//! nearest-hit choice, the assignment of scanlines to render workers and the
//! ordered collection of their output, plain-text image output, and where a
//! scene description is read from.
use vstd::prelude::*;

pub mod hittable_list;
pub mod pair;
pub mod ppm;
pub mod scene;
pub mod schedule;

verus! {

} // verus!
