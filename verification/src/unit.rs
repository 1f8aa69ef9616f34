//! Gameplay-side tags that travel with mesh instances.
//!
//! The driving collaborator groups the units it spawns by allegiance; the
//! rendering core never reads the tag, it only carries it.

use vstd::prelude::*;

verus! {

/// Which side a spawned unit fights on.
#[derive(Debug, Clone, Copy, PartialEq, Eq, Structural)]
pub enum Allegiance {
    Enemy,
    Ally,
}

impl Default for Allegiance {
    /// A unit is an enemy unless said otherwise.
    fn default() -> (r: Allegiance)
        ensures
            r == Allegiance::Enemy,
    {
        Allegiance::Enemy
    }
}

} // verus!
