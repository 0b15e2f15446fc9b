//! The picture processing unit: its mode state machine and the pixels of a
//! scanline.
pub mod line_rendering;
