//! Memory bank controllers of cartridges.
pub mod mbc1;
pub mod no_mbc;
