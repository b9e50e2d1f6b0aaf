use spotify_player::supervisor::{ConnectError, ConnectionState, Supervisor};

#[test]
fn a_new_supervisor_has_no_connection() {
    let s = Supervisor::new();
    assert_eq!(s.state, ConnectionState::NoConnection);
    assert!(!s.shutdown_issued);
    assert_eq!(s.active_handle(), None);
}

#[test]
fn the_first_connection_becomes_active() {
    let mut s = Supervisor::new();
    assert_eq!(s.begin_supersede(), None);
    assert_eq!(s.install(Ok(1)), Ok(None));
    assert_eq!(s.state, ConnectionState::Active(1));
    assert_eq!(s.active_handle(), Some(1));
}

#[test]
fn superseding_signals_the_prior_connection_first() {
    let mut s = Supervisor::new();
    assert_eq!(s.install(Ok(1)), Ok(None));
    assert_eq!(s.begin_supersede(), Some(1));
    assert_eq!(s.state, ConnectionState::Active(1));
    assert!(s.shutdown_issued);
    assert_eq!(s.install(Ok(2)), Ok(None));
    assert_eq!(s.state, ConnectionState::Active(2));
    assert!(!s.shutdown_issued);
}

#[test]
fn installing_without_a_signal_hands_out_the_prior_handle() {
    let mut s = Supervisor::new();
    assert_eq!(s.install(Ok(1)), Ok(None));
    assert_eq!(s.install(Ok(2)), Ok(Some(1)));
    assert_eq!(s.state, ConnectionState::Active(2));
    assert_eq!(s.install(Ok(3)), Ok(Some(2)));
    assert_eq!(s.active_handle(), Some(3));
}

#[test]
fn a_failed_creation_leaves_no_connection() {
    let mut s = Supervisor::new();
    assert_eq!(s.install(Err(ConnectError::Transport)), Err(ConnectError::Transport));
    assert_eq!(s, Supervisor::new());
}

#[test]
fn a_failed_creation_leaves_the_prior_connection() {
    let mut s = Supervisor::new();
    assert_eq!(s.install(Ok(7)), Ok(None));
    let before = s;
    assert_eq!(s.install(Err(ConnectError::Authentication)), Err(ConnectError::Authentication));
    assert_eq!(s, before);
    assert_eq!(s.begin_supersede(), Some(7));
    let signalled = s;
    assert_eq!(s.install(Err(ConnectError::Remote)), Err(ConnectError::Remote));
    assert_eq!(s, signalled);
    assert_eq!(s.active_handle(), Some(7));
}

#[test]
fn shutdown_ends_in_no_connection() {
    let mut s = Supervisor::new();
    assert_eq!(s.shutdown(), None);
    assert_eq!(s.install(Ok(4)), Ok(None));
    assert_eq!(s.shutdown(), Some(4));
    assert_eq!(s, Supervisor::new());
}
