[package]
name = "blackbox"
version = "0.1.0"
edition = "2021"
publish = false

[dependencies]
rtrb = "=0.4.1"
cpal = "=0.18.2"
serde = { version = "=1.0.229", features = ["derive"] }
serde_json = "=1.0.154"
toml = "=1.1.8"
thiserror = "=2.0.21"
log = "=0.4.35"
env_logger = "=0.11.11"
ctrlc = { version = "=3.5.2", features = ["termination"] }
chrono = "=0.4.45"
sysinfo = "=0.40.1"
libc = "=0.2.191"
hound = "=3.5.1"
