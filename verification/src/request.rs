//! The requests that producers send to the dispatch loop.

use vstd::prelude::*;
use crate::span::TimeSpan;

verus! {

/// A playback command.
#[derive(Clone, Debug, PartialEq, Eq)]
pub enum PlayerRequest {
    NextTrack,
    PreviousTrack,
    ResumePause,
    SeekTrack(TimeSpan),
    Repeat,
    Shuffle,
    Volume(u8),
    /// Move playback to the device with this id; the flag forces it to play.
    TransferPlayback(String, bool),
}

/// A request to the dispatch loop. Each variant carries what one remote call
/// needs.
#[derive(Clone, Debug, PartialEq, Eq)]
pub enum ClientRequest {
    Player(PlayerRequest),
    /// Connect to the device with this id, or to one that the service picks.
    ConnectDevice(Option<String>),
    GetCurrentPlayback,
    GetDevices,
    GetCurrentUserQueue,
    GetCurrentUser,
    GetUserPlaylists,
    GetUserFollowedArtists,
    GetUserSavedAlbums,
    GetUserSavedTracks,
    NewStreamingConnection,
}

} // verus!
