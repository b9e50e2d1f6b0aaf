//! Plain-value descriptions of what the remote service reports: devices,
//! playable items, the playback snapshot and the play queue.

use vstd::prelude::*;
use crate::span::TimeSpan;

verus! {

/// How playback repeats.
#[derive(Clone, Copy, Debug, PartialEq, Eq, Structural)]
pub enum RepeatState {
    Off,
    Track,
    Context,
}

impl RepeatState {
    /// The state that one press of "repeat" leads to: off, track, context and
    /// back to off.
    pub fn next(self) -> (r: RepeatState)
        ensures
            r == self.spec_next(),
    {
        match self {
            RepeatState::Off => RepeatState::Track,
            RepeatState::Track => RepeatState::Context,
            RepeatState::Context => RepeatState::Off,
        }
    }

    pub open spec fn spec_next(self) -> RepeatState {
        match self {
            RepeatState::Off => RepeatState::Track,
            RepeatState::Track => RepeatState::Context,
            RepeatState::Context => RepeatState::Off,
        }
    }
}

/// The kind of object that a playback context is.
#[derive(Clone, Copy, Debug, PartialEq, Eq, Structural)]
pub enum ContextKind {
    Artist,
    Album,
    Track,
    Playlist,
    User,
    Show,
    Episode,
    Collection,
    Collectionyourepisodes,
}

/// A device that can play.
#[derive(Clone, Debug, PartialEq, Eq)]
pub struct Device {
    pub id: Option<String>,
    pub name: String,
    pub is_active: bool,
    pub volume_percent: Option<u32>,
}

/// A track, as far as the client state reads it.
#[derive(Clone, Debug, PartialEq, Eq)]
pub struct Track {
    pub id: Option<String>,
    pub name: String,
    pub duration: TimeSpan,
}

/// A podcast episode, as far as the client state reads it.
#[derive(Clone, Debug, PartialEq, Eq)]
pub struct Episode {
    pub id: String,
    pub name: String,
    pub duration: TimeSpan,
}

/// What can be played: a track or an episode.
#[derive(Clone, Debug, PartialEq, Eq)]
pub enum PlayableItem {
    Track(Track),
    Episode(Episode),
}

/// The context (playlist, album, artist, ...) that playback runs in.
#[derive(Clone, Debug, PartialEq, Eq)]
pub struct Context {
    pub uri: String,
    pub kind: ContextKind,
}

/// A point-in-time description of what is playing, as fetched from the
/// remote service.
#[derive(Clone, Debug, PartialEq, Eq)]
pub struct Playback {
    pub device: Device,
    pub repeat_state: RepeatState,
    pub shuffle_state: bool,
    pub context: Option<Context>,
    pub progress: Option<TimeSpan>,
    pub is_playing: bool,
    pub item: Option<PlayableItem>,
}

impl Playback {
    /// The stored progress, where there is one, is a length of time that
    /// `chrono` can hold.
    pub open spec fn wf(&self) -> bool {
        self.progress matches Some(p) ==> p.in_delta_range()
    }

    /// Whether the snapshot is well formed.
    pub fn is_wf(&self) -> (r: bool)
        ensures
            r == self.wf(),
    {
        match self.progress {
            Some(p) => p.fits_delta(),
            None => true,
        }
    }
}

/// The part of a playback snapshot that local commands change, kept to show
/// their effect before the next snapshot arrives.
#[derive(Clone, Debug, PartialEq, Eq)]
pub struct SimplifiedPlayback {
    pub device_name: String,
    pub device_id: Option<String>,
    pub volume: Option<u32>,
    pub is_playing: bool,
    pub repeat_state: RepeatState,
    pub shuffle_state: bool,
}

/// The user's play queue.
#[derive(Clone, Debug, PartialEq, Eq)]
pub struct Queue {
    pub currently_playing: Option<PlayableItem>,
    pub queue: Vec<PlayableItem>,
}

} // verus!
