//! The two maps that the player steers on.

pub mod galaxy_map;
pub mod gesture;
pub mod star_map;
