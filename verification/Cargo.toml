[package]
name = "nix-installer"
version = "0.1.0"
edition = "2021"
publish = false

[dependencies]
target-lexicon = "=0.12.16"
clap = { version = "=4.6.7", features = ["derive", "env"] }
tokio = { version = "=1.54.1", features = ["full"] }
serde = { version = "=1.0.229", features = ["derive"] }
serde_json = "=1.0.154"
semver = { version = "=1.0.28", features = ["serde"] }
plist = "=1.10.3"
which = "=8.0.6"
walkdir = "=2.5.0"
tempfile = "=3.27.0"
dirs = "=7.0.0"
nix = { version = "=0.29.0", features = ["user", "process", "fs"] }
rand = "=0.8.8"
owo-colors = "=4.4.0"
eyre = "=0.6.14"
color-eyre = "=0.6.5"
tracing = "=0.1.44"
tracing-subscriber = { version = "=0.3.23", features = ["env-filter", "json"] }
url = { version = "=2.5.8", features = ["serde"] }
os-release = "=0.1.0"
sxd-document = "0.3"
sxd-xpath = "0.4"
sysctl = "0.5"
term = "0.7"
tracing-appender = "0.2"
tracing-error = "0.2"
atty = "0.2"
