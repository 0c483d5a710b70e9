[package]
name = "gol_lib"
version = "0.1.0"
edition = "2021"
publish = false

[dependencies]
bitvec = { version = "=1.1.1", features = ["serde"] }
circular-buffer = "=1.2.1"
serde = { version = "=1.0.229", features = ["derive"] }
serde_json = "=1.0.154"
thiserror = "=2.0.21"
unicode-segmentation = "=1.13.3"
walkdir = "=2.5.0"
spin_sleep_util = "=0.1.1"
clap = { version = "=4.6.7", features = ["derive"] }
log = "=0.4.35"
env_logger = "=0.11.11"
app_dirs2 = "=2.5.5"
threadpool = "=1.8.1"

[dev-dependencies]
tempfile = "=3.27.0"
