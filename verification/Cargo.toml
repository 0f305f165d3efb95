[package]
name = "timerfd"
version = "0.1.0"
edition = "2021"
publish = false

[dependencies]
rustix = { version = "*", features = ["time"] }

[dev-dependencies]
nix = { version = "*", features = ["fs"] }
libc = "*"
