//! The minimal view of audio tracks that the mixer control protocol needs:
//! a handle to name a track and the playback state carried alongside it.
//!
//! Track scheduling itself (seeking, volume, looping rules) is an external
//! collaborator; commands only add, replace or clear tracks.

use vstd::prelude::*;

verus! {

/// Names one track across task boundaries.
#[derive(Clone, Copy, Debug, PartialEq, Eq)]
pub struct TrackHandle {
    /// Identifier assigned by whoever created the track.
    pub id: u64,
}

/// Playback state snapshot carried with a track.
#[derive(Clone, Copy, Debug, PartialEq, Eq)]
pub struct TrackState {
    /// Whether the track is currently producing audio.
    pub playing: bool,
    /// Playback position, in milliseconds.
    pub position_ms: u64,
}

/// One queued audio source, as the mixer's command stream sees it.
#[derive(Clone, Copy, Debug)]
pub struct Track {
    /// The handle listeners and commands refer to this track by.
    pub handle: TrackHandle,
    /// Its playback state at the moment it was handed to the mixer.
    pub state: TrackState,
}

} // verus!
