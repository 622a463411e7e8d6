[package]
name = "conduit_control"
version = "0.1.0"
edition = "2021"
publish = false

[dependencies]
anyhow = "*"
axum = "=0.8.9"
axum-extra = { version = "=0.12.6", features = ["typed-header"] }
dotenvy = "*"
env_logger = "*"
futures-util = "*"
headers = "*"
log = "*"
reqwest = "=0.13.5"
tokio = { version = "=1.53.2", features = ["rt-multi-thread", "macros", "net"] }
twitch_api = { version = "=0.8.0", features = ["helix", "eventsub", "reqwest", "client", "twitch_oauth2"] }
