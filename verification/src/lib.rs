//! The client-state synchronisation core of a terminal music player: the
//! shared playback state, the command inbox with its one-at-a-time dispatch,
//! the supervisor of the streaming connection, and the startup sequence.

pub mod span;
pub mod model;
pub mod request;
pub mod uri;
pub mod player;
pub mod supervisor;
pub mod dispatch;
pub mod startup;
