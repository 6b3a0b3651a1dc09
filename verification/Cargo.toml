[package]
name = "kodiak_server"
version = "0.1.0"
edition = "2021"
publish = false

[dependencies]
clap = { version = "4", features = ["derive"] }
log = "0.4"
nix = { version = "*", features = ["user"] }
simple_server_status = "*"
