//! Core of a small spatial music player: a playback command actor.
//!
//! The actor owns the one audio output device and player of the process. Any
//! number of producers enqueue [`command::AudioCommand`] values; the actor
//! applies them one at a time to a [`session::PlaybackSession`] record and
//! turns each into the player requests it must issue. The decision logic —
//! which requests a command produces and how the session changes — lives here
//! and is verified; the channel, the device and the real player are the
//! embedding's concern.

pub mod command;
pub mod script;
pub mod session;
