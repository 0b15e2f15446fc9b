//! Rotations and shifts.
use vstd::prelude::*;

pub mod rl;
pub mod rr;
pub mod sl;
pub mod sr;
