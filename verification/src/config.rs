//! Archetype tags and build metadata.
//!
//! Parsing of build files stays outside the library; only the plain values
//! that the simulator branches on live here.

use vstd::prelude::*;

verus! {

/// The three hunter archetypes.  The combat resolver branches on this tag:
/// Borge strikes once with on-revive and missing-health bonuses, Ozzy layers
/// multistrikes and echo shots, Knox fires projectile salvos and blocks
/// instead of evading.
#[derive(Clone, Copy, PartialEq, Eq, Structural, Debug)]
pub enum HunterType {
    Borge,
    Ozzy,
    Knox,
}

/// Metadata of one build: which archetype it is and its character level.
#[derive(Clone, Copy, PartialEq, Eq, Structural, Debug)]
pub struct Meta {
    pub hunter: HunterType,
    pub level: i32,
}

} // verus!
