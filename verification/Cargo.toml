[package]
name = "kanshi"
version = "0.1.0"
edition = "2021"
publish = false

[dependencies]
tokio = { version = "1", features = ["sync", "rt", "rt-multi-thread", "time", "macros"] }
tokio-util = "0.7"
futures = "0.3"
async-stream = "0.3"
nix = { version = "0.29", features = ["inotify", "event", "fanotify", "fs"] }
libc = "0.2"
