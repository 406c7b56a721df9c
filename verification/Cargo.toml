[package]
name = "hakoniwa"
version = "0.1.0"
edition = "2021"
publish = false

[dependencies]
fastrand = "*"
nix = { version = "*", features = ["fs", "hostname", "mount", "process", "resource", "sched", "signal", "user"] }
libc = "*"
os_pipe = "*"
tempfile = "*"
bincode = { version = "2", features = ["serde"] }
serde = { version = "1", features = ["derive"] }
serde_json = "*"
procfs = "*"
log = "*"
thiserror = "*"
oci-spec = "*"
postcard = { version = "*", features = ["alloc"] }
scopeguard = "*"
chrono = "*"
