[package]
name = "misc_utils"
version = "0.1.0"
edition = "2021"
publish = false

[dependencies]
bzip2 = "0.4"
chrono = "0.4"
flate2 = "1"
log = "0.4"
num-traits = "0.2"
serde = "1"
serde_json = "1"
thiserror = "1"
tokio = { version = "1", features = ["rt", "fs"] }
xz2 = "0.1"
