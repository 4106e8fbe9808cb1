[package]
name = "picosine"
version = "0.1.0"
edition = "2021"
publish = false

[dependencies]
clack-extensions = { version = "=0.2.0", features = ["audio-ports", "clack-plugin", "params"] }
clack-plugin = "=0.2.0"
num = "=0.4.3"
