//! Commands accepted by the playback actor and the requests it issues.

use vstd::prelude::*;

verus! {

/// A caller-chosen playback-speed multiplier, carried as an opaque 64-bit
/// code. The actor never interprets the code: the embedding picks an encoding
/// for its multipliers and decodes the code again when a request reaches the
/// real player.
#[derive(Clone, Copy, Debug, PartialEq, Eq, Structural)]
pub struct Rate(pub u64);

/// The playback speed a request asks the player to apply to a source.
#[derive(Clone, Copy, Debug, PartialEq, Eq, Structural)]
pub enum Speed {
    /// Rate zero: the source is held paused.
    Paused,
    /// Rate one: the source advances normally.
    Normal,
    /// A caller-chosen rate, passed through unchanged.
    Custom(Rate),
}

/// A command sent to the playback actor. Commands are fire-and-forget: the
/// actor applies each one fully before looking at the next, and no command
/// carries a reply.
#[derive(Debug, PartialEq)]
pub enum AudioCommand {
    /// Replace whatever is playing with the track at this path.
    Play(String),
    /// Toggle the current track between playing and paused.
    PlayPause,
    /// Halt the current track.
    Stop,
    /// Set the current track's playback-speed multiplier.
    UpdateRate(Rate),
}

/// A request the actor asks the player to perform, in the order issued.
#[derive(Debug, PartialEq)]
pub enum PlayerRequest {
    /// Stop the source with this handle.
    StopSource(usize),
    /// Start a new streamed source for the track at this path.
    PlayFileStreamed(String),
    /// Set the playback speed of the source with this handle.
    SetSourceSpeed(usize, Speed),
}

} // verus!
