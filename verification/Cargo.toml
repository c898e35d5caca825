[package]
name = "slipstream"
version = "0.1.0"
edition = "2021"
publish = false

[dependencies]
chrono = "=0.4.45"
chrono-tz = "=0.10.4"
regex = "=1.13.1"
atom_syndication = "=0.12.10"
rss = "=2.1.2"
markdown = "=1.0.0"
pulldown-cmark = "=0.13.6"
shlex = "=1.3.0"
semver = "=1.0.28"
serde = { version = "=1.0.229", features = ["derive"] }
toml = "=1.1.8"
humantime-serde = "=1.1.1"
tokio = { version = "=1.54.1", features = ["rt-multi-thread", "macros", "time"] }
reqwest = { version = "=0.13.5", default-features = false }
clap = { version = "=4.6.7", features = ["derive"] }
opml = "=1.1.6"
serde_json = "=1.0.154"
minijinja = { version = "=3.0.5", features = ["serde"] }
