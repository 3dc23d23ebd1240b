//! Map selection settings, resolved once at startup.
//!
//! The rest of the process configuration (bind address, debug-command
//! and day/night flags) is read outside the library and handed in as
//! plain values.

use vstd::prelude::*;
use crate::map::MapType;

verus! {

/// Which generator builds the world map, and its parameters.
pub struct MapConfig {
    pub map_type: MapType,
    pub file: Option<String>,
    pub tile: Option<u16>,
}

} // verus!
