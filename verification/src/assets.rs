//! Identifiers for the audio cues the simulation asks the host to play.
//!
//! The host runtime owns the actual audio handles and playback; the
//! simulation only emits which cue should fire, as part of the effect
//! list a step returns.

use vstd::prelude::*;

verus! {

/// A fire-and-forget audio cue the host should play.
#[derive(Clone, Copy, Debug, PartialEq, Eq, Structural)]
pub enum SoundCue {
    /// A rock was destroyed by the player's ship or a bullet.
    RockCollision,
    /// A health crate was collected.
    CollectRepair,
    /// An explosive crate went off on the player.
    HitExplosive,
    /// A bullet was fired.
    Shoot,
}

} // verus!
