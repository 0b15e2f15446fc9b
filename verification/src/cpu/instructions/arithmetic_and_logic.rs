//! 8-bit and 16-bit arithmetic and logic instructions.
use vstd::prelude::*;

pub mod add;
pub mod and;
pub mod cp;
pub mod dec;
pub mod inc;
pub mod or;
pub mod sub;
pub mod xor;
