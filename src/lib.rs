//! Integer-side logic of a per-element animation kernel: which points of a
//! spiral can be placed, their exact distance from the axis, and how that
//! distance orders along the spiral.

pub mod spiral;
