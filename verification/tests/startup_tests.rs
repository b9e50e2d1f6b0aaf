use spotify_player::model::{Device, Playback, RepeatState};
use spotify_player::player::PlayerState;
use spotify_player::request::ClientRequest;
use spotify_player::span::TimeSpan;
use spotify_player::startup::{
    check_daemon, first_phase, log_file_names, next_phase, startup_requests, tasks_to_start,
    watcher_request, DaemonError, StartupConfig, StartupPhase, Task,
};

fn phases(config: &StartupConfig, outcomes: &[bool]) -> Vec<StartupPhase> {
    let mut phase = first_phase();
    let mut seen = vec![phase];
    for ok in outcomes {
        phase = next_phase(phase, *ok, config);
        seen.push(phase);
    }
    seen
}

fn user_data() -> Vec<ClientRequest> {
    vec![
        ClientRequest::GetCurrentUserQueue,
        ClientRequest::GetCurrentUser,
        ClientRequest::GetUserPlaylists,
        ClientRequest::GetUserFollowedArtists,
        ClientRequest::GetUserSavedAlbums,
        ClientRequest::GetUserSavedTracks,
    ]
}

fn snapshot(is_playing: bool) -> Playback {
    Playback {
        device: Device { id: None, name: "Phone".to_string(), is_active: true, volume_percent: None },
        repeat_state: RepeatState::Off,
        shuffle_state: false,
        context: None,
        progress: Some(TimeSpan::zero()),
        is_playing,
        item: None,
    }
}

#[test]
fn startup_without_playback_connects_to_a_device_first() {
    let requests = startup_requests(false);
    assert_eq!(requests[0], ClientRequest::ConnectDevice(None));
    assert_eq!(requests[1..].to_vec(), user_data());
    assert_eq!(requests.len(), 7);
}

#[test]
fn startup_with_playback_only_asks_for_user_data() {
    assert_eq!(startup_requests(true), user_data());
}

#[test]
fn daemon_startup_only_opens_the_connection() {
    let config = StartupConfig { is_daemon: true, streaming_enabled: false, media_control_enabled: false };
    assert_eq!(
        phases(&config, &[true; 5]),
        vec![
            StartupPhase::CreateSession,
            StartupPhase::InitToken,
            StartupPhase::OpenStreamingConnection,
            StartupPhase::StartTasks,
            StartupPhase::Running,
            StartupPhase::Running
        ]
    );
}

#[test]
fn interactive_startup_opens_the_connection_before_the_fetch() {
    let config = StartupConfig { is_daemon: false, streaming_enabled: true, media_control_enabled: false };
    assert_eq!(
        phases(&config, &[true; 6]),
        vec![
            StartupPhase::CreateSession,
            StartupPhase::InitToken,
            StartupPhase::OpenStreamingConnection,
            StartupPhase::FetchPlayback,
            StartupPhase::SendRequests,
            StartupPhase::StartTasks,
            StartupPhase::Running
        ]
    );
}

#[test]
fn interactive_startup_without_streaming_fetches_at_once() {
    let config = StartupConfig { is_daemon: false, streaming_enabled: false, media_control_enabled: true };
    assert_eq!(
        phases(&config, &[true; 5]),
        vec![
            StartupPhase::CreateSession,
            StartupPhase::InitToken,
            StartupPhase::FetchPlayback,
            StartupPhase::SendRequests,
            StartupPhase::StartTasks,
            StartupPhase::Running
        ]
    );
}

#[test]
fn a_failed_step_aborts_startup() {
    let config = StartupConfig { is_daemon: false, streaming_enabled: true, media_control_enabled: false };
    assert_eq!(
        phases(&config, &[true, true, false, true, true]),
        vec![
            StartupPhase::CreateSession,
            StartupPhase::InitToken,
            StartupPhase::OpenStreamingConnection,
            StartupPhase::Aborted,
            StartupPhase::Aborted,
            StartupPhase::Aborted
        ]
    );
    assert_eq!(next_phase(StartupPhase::CreateSession, false, &config), StartupPhase::Aborted);
    assert_eq!(next_phase(StartupPhase::Running, false, &config), StartupPhase::Running);
}

#[test]
fn tasks_follow_the_mode() {
    let core = vec![Task::ClientSocket, Task::ClientHandler, Task::PlayerEventWatcher];
    assert_eq!(tasks_to_start(true, false), core);
    assert_eq!(
        tasks_to_start(false, false),
        vec![
            Task::ClientSocket,
            Task::ClientHandler,
            Task::PlayerEventWatcher,
            Task::TerminalEventHandler,
            Task::Ui
        ]
    );
    assert_eq!(
        tasks_to_start(true, true),
        vec![Task::ClientSocket, Task::ClientHandler, Task::PlayerEventWatcher, Task::MediaControl]
    );
    assert_eq!(tasks_to_start(false, true).len(), 6);
    assert_eq!(tasks_to_start(false, true)[5], Task::MediaControl);
}

#[test]
fn daemon_is_refused_where_it_cannot_run() {
    assert_eq!(check_daemon(true, true, true, true), Err(DaemonError::MediaControlNeedsWindow));
    assert_eq!(check_daemon(true, true, true, false), Err(DaemonError::MediaControlNeedsWindow));
    assert_eq!(check_daemon(true, false, true, false), Err(DaemonError::StreamingRequired));
    assert_eq!(check_daemon(true, true, false, false), Err(DaemonError::StreamingRequired));
    assert_eq!(check_daemon(true, false, true, true), Ok(()));
    assert_eq!(check_daemon(false, true, true, false), Ok(()));
}

#[test]
fn watcher_fetches_only_while_playing() {
    let mut state = PlayerState::default();
    assert_eq!(watcher_request(&state), None);
    state.apply_playback_fetch(Some(snapshot(true)), TimeSpan::zero());
    assert_eq!(watcher_request(&state), Some(ClientRequest::GetCurrentPlayback));
    state.apply_playback_fetch(Some(snapshot(false)), TimeSpan::zero());
    assert_eq!(watcher_request(&state), None);
}

#[test]
fn log_files_are_named_after_the_start_time() {
    let (log, backtrace) = log_file_names("23-04-01-12-30");
    assert_eq!(log, "spotify-player-23-04-01-12-30.log");
    assert_eq!(backtrace, "spotify-player-23-04-01-12-30.backtrace");
}
