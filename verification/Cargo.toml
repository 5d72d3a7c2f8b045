[package]
name = "j1939"
version = "0.1.0"
edition = "2021"
publish = false

[dependencies]
libc = "*"
socket2 = "*"
nix = { version = "*", features = ["net", "socket"] }
futures = "*"
thiserror = "*"
tokio = { version = "*", features = ["net", "rt"] }
