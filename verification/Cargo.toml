[package]
name = "boxlite"
version = "0.1.0"
edition = "2021"
publish = false

[dependencies]
anyhow = "1"
chrono = "0.4"
clap = { version = "4", features = ["derive", "env"] }
clap_complete = "4"
dirs = "*"
futures = "0.3"
hex = "0.4"
libc = "0.2"
nix = { version = "0.29", features = ["fs", "mount", "process", "signal", "term", "user"] }
parking_lot = "0.12"
rand = "0.9"
rusqlite = { version = "*", features = ["bundled"] }
serde = { version = "1", features = ["derive"] }
serde_json = "1"
serde_yaml = "0.9"
sha2 = "0.10"
sysinfo = "0.30"
tabled = "*"
term_size = "0.3"
tokio = { version = "1", features = ["io-std", "io-util", "macros", "net", "rt-multi-thread", "signal", "sync", "time"] }
tracing = "0.1"
ulid = "1"
