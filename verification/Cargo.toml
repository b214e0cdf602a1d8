[package]
name = "rs1541fs"
version = "0.3.2"
edition = "2021"
publish = false

[dependencies]
anyhow = "1"
array-init = "2"
chrono = "0.4"
clap = { version = "4", features = ["derive", "env"] }
daemonize = "0.5"
either = "1"
env_logger = "0.11"
flume = "0.11"
fuser = { version = "0.15", default-features = false }
lazy_static = "1"
libc = "0.2"
log = "0.4"
nix = { version = "0.29", features = ["signal", "process"] }
parking_lot = "0.12"
regex = "1"
rs1541 = "0.3"
rustyline = "15"
serde = { version = "1", features = ["derive"] }
serde_json = "1"
strum = "0.26"
strum_macros = "0.26"
syslog = "7"
thiserror = "2"
tokio = { version = "1", features = ["full"] }

[dev-dependencies]
tempfile = "3"
