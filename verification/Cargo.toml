[package]
name = "duo_daemon"
version = "0.1.0"
edition = "2021"
publish = false

[dependencies]
clap = { version = "4", features = ["derive"] }
crossbeam-channel = "0.5"
env_logger = "*"
evdev-rs = "*"
futures = "0.3"
futures-lite = "*"
inotify = "*"
log = "0.4"
nix = { version = "*", features = ["fs"] }
nusb = "0.2"
pulseaudio = "*"
serde = { version = "1", features = ["derive"] }
tokio = { version = "1", features = ["fs", "io-util", "macros", "process", "rt", "sync", "time"] }
toml = "*"
users = "*"
