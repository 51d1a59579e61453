[package]
name = "flightcore_ng_core"
version = "0.1.0"
edition = "2021"
publish = false

[dependencies]
semver = "1"
pelite = "*"
serde = { version = "1", features = ["derive"] }
serde_json = "1"
json5 = "*"
tokio = { version = "1", features = ["full"] }
clap = { version = "4", features = ["derive"] }
color-eyre = "*"
eyre = "*"
directories = "*"
open = "*"
sysinfo = "*"
steamlocate = "*"
inquire = "*"
async-walkdir = "*"
futures-lite = "*"
zip = { version = "*", default-features = false, features = ["deflate"] }
flate2 = "*"
tar = "*"
reqwest = "*"
octocrab = "*"
tracing = "*"
tracing-subscriber = "*"
bytes = "*"
git2 = { version = "*", default-features = false }
