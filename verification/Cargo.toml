[package]
name = "statusmon"
version = "0.1.0"
edition = "2021"
publish = false

[dependencies]
anyhow = "1"
mountinfo = "*"
mpd = "*"
nix = { version = "*", features = ["inotify"] }
serde = { version = "1", features = ["derive"] }
serde_json = "1"
