//! nocy: the verified core of a terminal music player that streams from
//! SoundCloud.
//!
//! The library holds the player's queue of pending tracks, the state of the
//! interface and how keys move it, the decisions of the playback worker, the
//! position bookkeeping of the streaming reader, the SoundCloud record and
//! request handling, the player's paths, and the text that the interface
//! draws. Terminal, audio and network work is left to the caller.
use vstd::prelude::*;

pub mod app;
pub mod fs;
pub mod player;
pub mod queue;
pub mod random;
pub mod render;
pub mod soundcloud;
pub mod stream;
pub mod text;
pub mod track;
pub mod version;

verus! {

} // verus!
