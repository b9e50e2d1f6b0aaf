//! What happens at startup and on each tick of the playback watcher, as
//! decisions on plain values: which steps run, which requests are sent,
//! which tasks are started.

use vstd::prelude::*;
use vstd::string::*;
use crate::player::PlayerState;
use crate::request::ClientRequest;

verus! {

/// What the program was asked to do at startup.
#[derive(Clone, Copy, Debug, PartialEq, Eq, Structural)]
pub struct StartupConfig {
    pub is_daemon: bool,
    pub streaming_enabled: bool,
    pub media_control_enabled: bool,
}

/// Where startup stands. Each phase but the last two is one piece of outside
/// work, which succeeds or fails.
#[derive(Clone, Copy, Debug, PartialEq, Eq, Structural)]
pub enum StartupPhase {
    CreateSession,
    InitToken,
    OpenStreamingConnection,
    FetchPlayback,
    SendRequests,
    StartTasks,
    /// Startup is done: the tasks run.
    Running,
    /// A step failed: the process ends before it reaches the steady state.
    Aborted,
}

/// The phase that follows `phase` once its work has ended. A failure ends
/// startup. A daemon opens the streaming connection and starts its tasks.
/// The interactive program opens the connection where streaming is enabled,
/// then fetches the playback, sends its requests and starts its tasks.
pub open spec fn phase_after(
    phase: StartupPhase,
    succeeded: bool,
    config: StartupConfig,
) -> StartupPhase {
    match phase {
        StartupPhase::Running => StartupPhase::Running,
        StartupPhase::Aborted => StartupPhase::Aborted,
        _ => if !succeeded {
            StartupPhase::Aborted
        } else {
            match phase {
                StartupPhase::CreateSession => StartupPhase::InitToken,
                StartupPhase::InitToken => if config.is_daemon || config.streaming_enabled {
                    StartupPhase::OpenStreamingConnection
                } else {
                    StartupPhase::FetchPlayback
                },
                StartupPhase::OpenStreamingConnection => if config.is_daemon {
                    StartupPhase::StartTasks
                } else {
                    StartupPhase::FetchPlayback
                },
                StartupPhase::FetchPlayback => StartupPhase::SendRequests,
                StartupPhase::SendRequests => StartupPhase::StartTasks,
                _ => StartupPhase::Running,
            }
        },
    }
}

/// The phase that startup begins with.
pub fn first_phase() -> (r: StartupPhase)
    ensures
        r == StartupPhase::CreateSession,
{
    StartupPhase::CreateSession
}

/// The phase that follows `phase` once its work has ended, with or without
/// success.
pub fn next_phase(phase: StartupPhase, succeeded: bool, config: &StartupConfig) -> (r:
    StartupPhase)
    ensures
        r == phase_after(phase, succeeded, *config),
{
    match phase {
        StartupPhase::Running => StartupPhase::Running,
        StartupPhase::Aborted => StartupPhase::Aborted,
        _ => if !succeeded {
            StartupPhase::Aborted
        } else {
            match phase {
                StartupPhase::CreateSession => StartupPhase::InitToken,
                StartupPhase::InitToken => if config.is_daemon || config.streaming_enabled {
                    StartupPhase::OpenStreamingConnection
                } else {
                    StartupPhase::FetchPlayback
                },
                StartupPhase::OpenStreamingConnection => if config.is_daemon {
                    StartupPhase::StartTasks
                } else {
                    StartupPhase::FetchPlayback
                },
                StartupPhase::FetchPlayback => StartupPhase::SendRequests,
                StartupPhase::SendRequests => StartupPhase::StartTasks,
                _ => StartupPhase::Running,
            }
        },
    }
}

/// The phase reached from the first one when each of `outcomes` in turn is
/// how a phase's work ended.
pub open spec fn phase_reached(outcomes: Seq<bool>, config: StartupConfig) -> StartupPhase
    decreases outcomes.len(),
{
    if outcomes.len() == 0 {
        StartupPhase::CreateSession
    } else {
        phase_after(phase_reached(outcomes.drop_last(), config), outcomes.last(), config)
    }
}

/// Whether the streaming connection was opened with success on the way that
/// `outcomes` describes.
pub open spec fn connection_opened(outcomes: Seq<bool>, config: StartupConfig) -> bool
    decreases outcomes.len(),
{
    if outcomes.len() == 0 {
        false
    } else {
        connection_opened(outcomes.drop_last(), config) || (phase_reached(
            outcomes.drop_last(),
            config,
        ) == StartupPhase::OpenStreamingConnection && outcomes.last())
    }
}

/// The order of startup. The playback is fetched, the requests are sent and
/// the tasks are started only after the streaming connection was opened,
/// where one is to be opened; a daemon never fetches the playback nor sends
/// requests; and the steady state is not reached after a failure.
pub proof fn lemma_startup_order(outcomes: Seq<bool>, config: StartupConfig)
    ensures
        ({
            let phase = phase_reached(outcomes, config);
            &&& (config.is_daemon || config.streaming_enabled) && (phase
                == StartupPhase::FetchPlayback || phase == StartupPhase::SendRequests || phase
                == StartupPhase::StartTasks || phase == StartupPhase::Running)
                ==> connection_opened(outcomes, config)
            &&& config.is_daemon ==> phase != StartupPhase::FetchPlayback && phase
                != StartupPhase::SendRequests
            &&& phase == StartupPhase::Running ==> forall|i: int|
                0 <= i < outcomes.len() ==> #[trigger] outcomes[i] || phase_reached(
                    outcomes.take(i),
                    config,
                ) == StartupPhase::Running
        }),
    decreases outcomes.len(),
{
    if outcomes.len() > 0 {
        let prev = outcomes.drop_last();
        lemma_startup_order(prev, config);
        let phase = phase_reached(outcomes, config);
        if phase == StartupPhase::Running {
            assert forall|i: int| 0 <= i < outcomes.len() implies #[trigger] outcomes[i]
                || phase_reached(outcomes.take(i), config) == StartupPhase::Running by {
                if i < prev.len() {
                    assert(outcomes.take(i) =~= prev.take(i));
                    assert(outcomes[i] == prev[i]);
                    if !outcomes[i] && phase_reached(prev.take(i), config)
                        != StartupPhase::Running {
                        assert(prev.take(i + 1).drop_last() =~= prev.take(i));
                        assert(phase_reached(prev.take(i + 1), config) == StartupPhase::Aborted);
                        lemma_aborted_stays(prev, config, i + 1);
                    }
                } else {
                    assert(outcomes.take(i) =~= prev);
                }
            }
        }
    }
}

/// A startup that was aborted stays aborted.
pub proof fn lemma_aborted_stays(outcomes: Seq<bool>, config: StartupConfig, n: int)
    requires
        0 <= n <= outcomes.len(),
        phase_reached(outcomes.take(n), config) == StartupPhase::Aborted,
    ensures
        phase_reached(outcomes, config) == StartupPhase::Aborted,
    decreases outcomes.len() - n,
{
    if n < outcomes.len() {
        assert(outcomes.take(n + 1).drop_last() =~= outcomes.take(n));
        lemma_aborted_stays(outcomes, config, n + 1);
    } else {
        assert(outcomes.take(n) =~= outcomes);
    }
}

/// The requests for the user's data, in the order in which they are sent.
pub open spec fn user_data_requests() -> Seq<ClientRequest> {
    seq![
        ClientRequest::GetCurrentUserQueue,
        ClientRequest::GetCurrentUser,
        ClientRequest::GetUserPlaylists,
        ClientRequest::GetUserFollowedArtists,
        ClientRequest::GetUserSavedAlbums,
        ClientRequest::GetUserSavedTracks,
    ]
}

/// The requests that interactive startup sends once the playback was
/// fetched.
pub open spec fn startup_requests_of(playback_present: bool) -> Seq<ClientRequest> {
    if playback_present {
        user_data_requests()
    } else {
        seq![ClientRequest::ConnectDevice(None)] + user_data_requests()
    }
}

/// The requests that interactive startup sends once the playback was
/// fetched: where nothing plays, first the request to connect to a device
/// of the service's choice; then the requests for the user's data.
pub fn startup_requests(playback_present: bool) -> (r: Vec<ClientRequest>)
    ensures
        r@ == startup_requests_of(playback_present),
{
    let mut requests: Vec<ClientRequest> = Vec::new();
    if !playback_present {
        requests.push(ClientRequest::ConnectDevice(None));
    }
    requests.push(ClientRequest::GetCurrentUserQueue);
    requests.push(ClientRequest::GetCurrentUser);
    requests.push(ClientRequest::GetUserPlaylists);
    requests.push(ClientRequest::GetUserFollowedArtists);
    requests.push(ClientRequest::GetUserSavedAlbums);
    requests.push(ClientRequest::GetUserSavedTracks);
    assert(requests@ =~= startup_requests_of(playback_present));
    requests
}

/// A task that runs for the life of the process.
#[derive(Clone, Copy, Debug, PartialEq, Eq, Structural)]
pub enum Task {
    ClientSocket,
    ClientHandler,
    PlayerEventWatcher,
    TerminalEventHandler,
    Ui,
    MediaControl,
}

/// The tasks to start, in their order.
pub open spec fn tasks_of(is_daemon: bool, media_control: bool) -> Seq<Task> {
    let core = seq![Task::ClientSocket, Task::ClientHandler, Task::PlayerEventWatcher];
    let ui = if is_daemon {
        Seq::<Task>::empty()
    } else {
        seq![Task::TerminalEventHandler, Task::Ui]
    };
    let media = if media_control {
        seq![Task::MediaControl]
    } else {
        Seq::<Task>::empty()
    };
    core + ui + media
}

/// The tasks to start: the socket, the dispatch loop and the watcher always;
/// terminal input and the interface unless the program is a daemon; the
/// media-key watcher where media control is enabled.
pub fn tasks_to_start(is_daemon: bool, media_control: bool) -> (r: Vec<Task>)
    ensures
        r@ == tasks_of(is_daemon, media_control),
{
    let mut tasks: Vec<Task> = Vec::new();
    tasks.push(Task::ClientSocket);
    tasks.push(Task::ClientHandler);
    tasks.push(Task::PlayerEventWatcher);
    if !is_daemon {
        tasks.push(Task::TerminalEventHandler);
        tasks.push(Task::Ui);
    }
    if media_control {
        tasks.push(Task::MediaControl);
    }
    assert(tasks@ =~= tasks_of(is_daemon, media_control));
    tasks
}

/// Why the program cannot run as a daemon.
#[derive(Clone, Copy, Debug, PartialEq, Eq, Structural)]
pub enum DaemonError {
    /// Media control needs a window on this system, and a daemon has none.
    MediaControlNeedsWindow,
    /// A daemon without streaming has nothing to do.
    StreamingRequired,
}

/// Whether the program may start in the asked mode. Only a daemon can be
/// refused: first where media control is built in on a system that needs a
/// window for it, then where streaming is not built in.
pub fn check_daemon(
    is_daemon: bool,
    needs_window: bool,
    media_control_built: bool,
    streaming_built: bool,
) -> (r: Result<(), DaemonError>)
    ensures
        r == if is_daemon && needs_window && media_control_built {
            Err::<(), DaemonError>(DaemonError::MediaControlNeedsWindow)
        } else if is_daemon && !streaming_built {
            Err::<(), DaemonError>(DaemonError::StreamingRequired)
        } else {
            Ok::<(), DaemonError>(())
        },
{
    if is_daemon && needs_window && media_control_built {
        Err(DaemonError::MediaControlNeedsWindow)
    } else if is_daemon && !streaming_built {
        Err(DaemonError::StreamingRequired)
    } else {
        Ok(())
    }
}

/// What the playback watcher sends on a tick: a fetch of the playback while
/// something plays, nothing otherwise.
pub fn watcher_request(state: &PlayerState) -> (r: Option<ClientRequest>)
    ensures
        r == if state.playback matches Some(p) && p.is_playing {
            Some(ClientRequest::GetCurrentPlayback)
        } else {
            None::<ClientRequest>
        },
{
    if state.is_playing() {
        Some(ClientRequest::GetCurrentPlayback)
    } else {
        None
    }
}

/// The names of the log file and of the backtrace file for a run that
/// started at the time written as `stamp`.
pub fn log_file_names(stamp: &str) -> (r: (String, String))
    ensures
        r.0@ == "spotify-player-"@ + stamp@ + ".log"@,
        r.1@ == "spotify-player-"@ + stamp@ + ".backtrace"@,
{
    let log = String::from_str("spotify-player-").concat(stamp).concat(".log");
    let backtrace = String::from_str("spotify-player-").concat(stamp).concat(".backtrace");
    (log, backtrace)
}

} // verus!
