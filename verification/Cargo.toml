[package]
name = "gearwit"
version = "0.1.0"
edition = "2021"
publish = false

[dependencies]
blake3 = { version = "1", default-features = false, features = ["pure"] }
clap = { version = "4", features = ["derive"] }
getrandom = "0.3"
nix = { version = "*", features = ["user", "signal", "process", "fs", "poll"] }
rsfulmen = "*"
serde = { version = "1", features = ["derive"] }
serde_json = { version = "1", features = ["raw_value"] }
subtle = "2"
sysprims-proc = "*"
sysprims-session = "*"
sysprims-signal = "*"
time = { version = "0.3", features = ["formatting", "parsing", "macros"] }
ulid = "1"
zeroize = "1"
