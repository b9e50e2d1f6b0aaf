//! The shared player state: what the store holds, how it is read, and how a
//! fetched snapshot or a local command changes it.

use vstd::prelude::*;
use crate::model::{
    ContextKind, Device, PlayableItem, Playback, Queue, SimplifiedPlayback, Track,
};
use crate::request::PlayerRequest;
use crate::span::{elapsed_nanos, max_delta_nanos, TimeSpan};
use crate::uri::{
    album_id_from_uri, artist_id_from_uri, id_of_uri, normalize_uri, normalized_uri, opt_chars,
    playlist_id_from_uri,
};

verus! {

/// The id of a playing context: a playlist, an album or an artist.
#[derive(Clone, Debug, PartialEq, Eq)]
pub enum ContextId {
    Playlist(String),
    Album(String),
    Artist(String),
}

impl View for ContextId {
    type V = (ContextKind, Seq<char>);

    /// The kind of the context and the characters of its id.
    open spec fn view(&self) -> (ContextKind, Seq<char>) {
        match self {
            ContextId::Playlist(id) => (ContextKind::Playlist, id@),
            ContextId::Album(id) => (ContextKind::Album, id@),
            ContextId::Artist(id) => (ContextKind::Artist, id@),
        }
    }
}

/// The view of an optional context id.
pub open spec fn opt_context_id(id: Option<ContextId>) -> Option<(ContextKind, Seq<char>)> {
    match id {
        Some(id) => Some(id@),
        None => None,
    }
}

/// The context id that a context of kind `kind` has when `parsed` is what
/// was read out of its URI: playlists, albums and artists have the id that
/// was read, where one was; every other kind has none.
pub open spec fn context_id_of(kind: ContextKind, parsed: Option<Seq<char>>) -> Option<
    (ContextKind, Seq<char>),
> {
    match (kind, parsed) {
        (ContextKind::Playlist, Some(id)) => Some((kind, id)),
        (ContextKind::Album, Some(id)) => Some((kind, id)),
        (ContextKind::Artist, Some(id)) => Some((kind, id)),
        _ => None,
    }
}

impl ContextId {
    /// Makes the context id of a context of kind `kind` from the id that was
    /// read out of its URI.
    pub fn from_parsed(kind: ContextKind, parsed: Option<String>) -> (r: Option<ContextId>)
        ensures
            opt_context_id(r) == context_id_of(kind, opt_chars(parsed)),
    {
        match parsed {
            None => None,
            Some(id) => match kind {
                ContextKind::Playlist => Some(ContextId::Playlist(id)),
                ContextKind::Album => Some(ContextId::Album(id)),
                ContextKind::Artist => Some(ContextId::Artist(id)),
                _ => None,
            },
        }
    }
}

/// The player state that the store holds.
#[derive(Debug, PartialEq, Eq)]
pub struct PlayerState {
    pub devices: Vec<Device>,
    pub playback: Option<Playback>,
    /// The reading of the monotonic clock when `playback` was fetched.
    pub playback_last_updated_time: Option<TimeSpan>,
    /// What local commands have changed since `playback` was fetched.
    pub buffered_playback: Option<SimplifiedPlayback>,
    pub queue: Option<Queue>,
}

/// The simplified mirror of a snapshot.
pub open spec fn mirror_of(p: Playback) -> SimplifiedPlayback {
    SimplifiedPlayback {
        device_name: p.device.name,
        device_id: p.device.id,
        volume: p.device.volume_percent,
        is_playing: p.is_playing,
        repeat_state: p.repeat_state,
        shuffle_state: p.shuffle_state,
    }
}

/// What a local command makes of the buffered playback `b`: pause and resume
/// flip `is_playing`, repeat goes to the next repeat state, shuffle flips,
/// a volume command sets the volume; the others change nothing in it.
pub open spec fn buffered_after(b: SimplifiedPlayback, request: PlayerRequest) -> SimplifiedPlayback {
    match request {
        PlayerRequest::ResumePause => SimplifiedPlayback { is_playing: !b.is_playing, ..b },
        PlayerRequest::Repeat => SimplifiedPlayback {
            repeat_state: b.repeat_state.spec_next(),
            ..b
        },
        PlayerRequest::Shuffle => SimplifiedPlayback { shuffle_state: !b.shuffle_state, ..b },
        PlayerRequest::Volume(v) => SimplifiedPlayback { volume: Some(v as u32), ..b },
        _ => b,
    }
}

fn clone_text(s: &Option<String>) -> (r: Option<String>)
    ensures
        r == *s,
{
    match s {
        Some(t) => Some(t.clone()),
        None => None,
    }
}

impl Default for PlayerState {
    /// The empty state that the store starts with.
    fn default() -> (r: PlayerState)
        ensures
            r.wf(),
            r.devices@.len() == 0,
            r.playback is None,
            r.playback_last_updated_time is None,
            r.buffered_playback is None,
            r.queue is None,
    {
        PlayerState {
            devices: Vec::new(),
            playback: None,
            playback_last_updated_time: None,
            buffered_playback: None,
            queue: None,
        }
    }
}

impl PlayerState {
    /// The snapshot and the time of its fetch are present together or absent
    /// together, and both are well formed.
    pub open spec fn wf(&self) -> bool {
        &&& self.playback.is_some() == self.playback_last_updated_time.is_some()
        &&& self.playback matches Some(p) ==> p.wf()
        &&& self.playback_last_updated_time matches Some(t) ==> t.wf()
    }

    /// Whether the state is well formed.
    pub fn is_wf(&self) -> (r: bool)
        ensures
            r == self.wf(),
    {
        match self.playback {
            Some(ref p) => match self.playback_last_updated_time {
                Some(t) => p.is_wf() && t.is_wf(),
                None => false,
            },
            None => self.playback_last_updated_time.is_none(),
        }
    }

    /// Whether a progress can be read: there is no snapshot, or the snapshot
    /// has a stored progress.
    pub fn has_progress(&self) -> (r: bool)
        ensures
            r == (self.playback matches Some(p) ==> p.progress.is_some()),
    {
        match self.playback {
            Some(ref p) => p.progress.is_some(),
            None => true,
        }
    }

    /// The track that is playing: the snapshot's item where it is a track.
    pub open spec fn spec_current_playing_track(&self) -> Option<Track> {
        match self.playback {
            Some(p) => match p.item {
                Some(PlayableItem::Track(t)) => Some(t),
                _ => None,
            },
            None => None,
        }
    }

    /// Gets the track that is playing. There is none without a snapshot,
    /// without an item, or where the item is an episode.
    pub fn current_playing_track(&self) -> (r: Option<&Track>)
        ensures
            r.is_some() == self.spec_current_playing_track().is_some(),
            r matches Some(t) ==> *t == self.spec_current_playing_track().unwrap(),
    {
        match self.playback {
            None => None,
            Some(ref playback) => match playback.item {
                Some(PlayableItem::Track(ref track)) => Some(track),
                _ => None,
            },
        }
    }

    /// The progress to show at the clock reading `now`, in nanoseconds.
    /// Without a snapshot there is none. A paused snapshot shows its stored
    /// progress. A playing one shows the stored progress plus the time that
    /// has passed since the fetch, and none where that time or the sum is
    /// longer than `chrono` can hold.
    pub open spec fn progress_at(&self, now: TimeSpan) -> Option<int> {
        match self.playback {
            None => None,
            Some(p) => {
                let stored = p.progress.unwrap()@;
                if p.is_playing {
                    let elapsed = elapsed_nanos(self.playback_last_updated_time.unwrap(), now);
                    if elapsed <= max_delta_nanos() && stored + elapsed <= max_delta_nanos() {
                        Some(stored + elapsed)
                    } else {
                        None
                    }
                } else {
                    Some(stored)
                }
            },
        }
    }

    /// Gets the playback progress at the clock reading `now`.
    pub fn playback_progress(&self, now: TimeSpan) -> (r: Option<TimeSpan>)
        requires
            self.wf(),
            now.wf(),
            self.playback matches Some(p) ==> p.progress.is_some(),
        ensures
            r.is_some() == self.progress_at(now).is_some(),
            r matches Some(s) ==> s.in_delta_range() && s@ == self.progress_at(now).unwrap(),
            self.playback matches Some(p) ==> !p.is_playing ==> r == p.progress,
    {
        match self.playback {
            None => None,
            Some(ref playback) => {
                let stored: TimeSpan = playback.progress.unwrap();
                if playback.is_playing {
                    let fetched: TimeSpan = self.playback_last_updated_time.unwrap();
                    match now.saturating_sub(&fetched).to_delta() {
                        Some(elapsed) => stored.checked_add(&elapsed),
                        None => None,
                    }
                } else {
                    Some(stored)
                }
            },
        }
    }

    /// The id of the playing context: the id that `rspotify-model` reads out
    /// of the short form of the context's URI, for a playlist, an album or an
    /// artist. There is none without a snapshot or without a context, for a
    /// context of another kind, or where the URI is refused.
    pub open spec fn spec_playing_context_id(&self) -> Option<(ContextKind, Seq<char>)> {
        match self.playback {
            Some(p) => match p.context {
                Some(c) => context_id_of(c.kind, id_of_uri(c.kind, normalized_uri(c.uri@))),
                None => None,
            },
            None => None,
        }
    }

    /// Gets the id of the playing context.
    pub fn playing_context_id(&self) -> (r: Option<ContextId>)
        ensures
            opt_context_id(r) == self.spec_playing_context_id(),
    {
        match self.playback {
            Some(ref playback) => match playback.context {
                Some(ref context) => {
                    let uri = normalize_uri(context.uri.as_str());
                    let parsed = match context.kind {
                        ContextKind::Playlist => playlist_id_from_uri(uri.as_str()),
                        ContextKind::Album => album_id_from_uri(uri.as_str()),
                        ContextKind::Artist => artist_id_from_uri(uri.as_str()),
                        _ => None,
                    };
                    ContextId::from_parsed(context.kind, parsed)
                },
                None => None,
            },
            None => None,
        }
    }

    /// Whether the snapshot says that something is playing.
    pub fn is_playing(&self) -> (r: bool)
        ensures
            r == (self.playback matches Some(p) && p.is_playing),
    {
        match self.playback {
            Some(ref playback) => playback.is_playing,
            None => false,
        }
    }

    /// The state after a fetched snapshot is folded in: it replaces
    /// `playback`, the time of the fetch becomes `now` (or nothing, where
    /// nothing plays), and the buffered playback is cleared. Devices and
    /// queue stay.
    pub open spec fn after_fetch(self, snapshot: Option<Playback>, now: TimeSpan) -> PlayerState {
        PlayerState {
            playback: snapshot,
            playback_last_updated_time: if snapshot.is_some() {
                Some(now)
            } else {
                None
            },
            buffered_playback: None,
            ..self
        }
    }

    /// Folds a fetched snapshot into the state.
    pub fn apply_playback_fetch(&mut self, snapshot: Option<Playback>, now: TimeSpan)
        requires
            now.wf(),
            snapshot matches Some(p) ==> p.wf(),
        ensures
            final(self).wf(),
            *final(self) == old(self).after_fetch(snapshot, now),
    {
        self.playback_last_updated_time = if snapshot.is_some() {
            Some(now)
        } else {
            None
        };
        self.playback = snapshot;
        self.buffered_playback = None;
    }

    /// Replaces the queue wholesale.
    pub fn apply_queue_fetch(&mut self, queue: Queue)
        ensures
            final(self).queue == Some(queue),
            final(self).devices == old(self).devices,
            final(self).playback == old(self).playback,
            final(self).playback_last_updated_time == old(self).playback_last_updated_time,
            final(self).buffered_playback == old(self).buffered_playback,
    {
        self.queue = Some(queue);
    }

    /// Replaces the list of known devices; an empty list is stored like any
    /// other.
    pub fn apply_devices_fetch(&mut self, devices: Vec<Device>)
        ensures
            final(self).devices == devices,
            final(self).queue == old(self).queue,
            final(self).playback == old(self).playback,
            final(self).playback_last_updated_time == old(self).playback_last_updated_time,
            final(self).buffered_playback == old(self).buffered_playback,
    {
        self.devices = devices;
    }

    /// The buffered playback that a local command starts from: the one that
    /// is there, else the mirror of the snapshot, else none.
    pub open spec fn buffer_base(&self) -> Option<SimplifiedPlayback> {
        match self.buffered_playback {
            Some(b) => Some(b),
            None => match self.playback {
                Some(p) => Some(mirror_of(p)),
                None => None,
            },
        }
    }

    /// The state after a local command: the buffered playback shows the
    /// command's effect, and nothing else changes. Without a snapshot and
    /// without a buffered playback there is nothing to show it on.
    pub open spec fn after_local_command(self, request: PlayerRequest) -> PlayerState {
        PlayerState {
            buffered_playback: match self.buffer_base() {
                Some(b) => Some(buffered_after(b, request)),
                None => None,
            },
            ..self
        }
    }

    /// Records the effect of a local command in the buffered playback, at
    /// once and without any remote call.
    pub fn buffer_local_command(&mut self, request: &PlayerRequest)
        ensures
            *final(self) == old(self).after_local_command(*request),
            old(self).wf() ==> final(self).wf(),
    {
        let base: Option<SimplifiedPlayback> = match self.buffered_playback.take() {
            Some(b) => Some(b),
            None => match self.playback {
                Some(ref p) => Some(
                    SimplifiedPlayback {
                        device_name: p.device.name.clone(),
                        device_id: clone_text(&p.device.id),
                        volume: p.device.volume_percent,
                        is_playing: p.is_playing,
                        repeat_state: p.repeat_state,
                        shuffle_state: p.shuffle_state,
                    },
                ),
                None => None,
            },
        };
        self.buffered_playback = match base {
            Some(b) => Some(
                match request {
                    PlayerRequest::ResumePause => SimplifiedPlayback {
                        is_playing: !b.is_playing,
                        ..b
                    },
                    PlayerRequest::Repeat => SimplifiedPlayback {
                        repeat_state: b.repeat_state.next(),
                        ..b
                    },
                    PlayerRequest::Shuffle => SimplifiedPlayback {
                        shuffle_state: !b.shuffle_state,
                        ..b
                    },
                    PlayerRequest::Volume(v) => SimplifiedPlayback { volume: Some(*v as u32), ..b },
                    _ => b,
                },
            ),
            None => None,
        };
    }
}

/// The shown progress never runs backwards while only time passes: of two
/// readings of the clock with no fetch between them, the later one shows at
/// least as much as the earlier, and where the later one shows a progress
/// the earlier one does too.
pub proof fn lemma_progress_monotone(state: PlayerState, earlier: TimeSpan, later: TimeSpan)
    requires
        state.wf(),
        earlier.wf(),
        later.wf(),
        earlier@ <= later@,
    ensures
        state.progress_at(later).is_some() ==> state.progress_at(earlier).is_some(),
        state.progress_at(later) matches Some(b) ==> state.progress_at(earlier).unwrap() <= b,
{
}

/// A buffered playback does not outlive a fetch: whatever state the local
/// commands have left, the next fetched snapshot clears the buffered
/// playback, and a command that follows starts again from that snapshot.
pub proof fn lemma_fetch_clears_buffer(
    state: PlayerState,
    request: PlayerRequest,
    snapshot: Option<Playback>,
    now: TimeSpan,
)
    ensures
        state.after_local_command(request).after_fetch(snapshot, now).buffered_playback is None,
        state.after_local_command(request).after_fetch(snapshot, now) == state.after_fetch(
            snapshot,
            now,
        ),
        state.after_fetch(snapshot, now).buffer_base() == match snapshot {
            Some(p) => Some(mirror_of(p)),
            None => None,
        },
{
}

/// A pause takes effect at once: a local pause or resume on a state with a
/// snapshot and no buffered playback leaves a buffered playback whose
/// `is_playing` is the opposite of the snapshot's.
pub proof fn lemma_pause_is_immediate(state: PlayerState)
    requires
        state.playback is Some,
        state.buffered_playback is None,
    ensures
        state.after_local_command(PlayerRequest::ResumePause).buffered_playback matches Some(b)
            && b.is_playing == !state.playback.unwrap().is_playing,
{
}

} // verus!
