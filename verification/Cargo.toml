[package]
name = "termfilepicker"
version = "0.1.0"
edition = "2021"
publish = false

[dependencies]
chrono = "*"
dirs = "*"
fern = { version = "*", features = ["colored"] }
log = "*"
serde = { version = "*", features = ["derive"] }
shlex = "*"
toml = "*"
which = "*"
