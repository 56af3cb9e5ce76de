//! Verified core of a small 2D shooting range: a fixed shooter fires
//! projectiles, each followed by a ribbon trail.
use vstd::prelude::*;

pub mod scene;
pub mod speed;
