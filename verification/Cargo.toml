[package]
name = "spotify_player"
version = "0.13.1"
edition = "2021"
publish = false

[dependencies]
anyhow = "1"
backtrace = "0.3"
chrono = "0.4"
clap = "4"
daemonize = "0.5"
flume = "0.10"
rspotify-model = "0.11"
tokio = { version = "1", features = ["rt", "rt-multi-thread", "macros", "time"] }
tracing = "0.1"
tracing-subscriber = { version = "0.3", features = ["env-filter"] }
