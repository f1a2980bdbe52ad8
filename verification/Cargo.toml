[package]
name = "cdscanner"
version = "0.1.0"
edition = "2021"
publish = false

[dependencies]
chrono = "=0.4.45"
env_logger = "=0.10.2"
governor = "=0.6.3"
itertools = "=0.10.5"
musicbrainz_rs = { version = "=0.5.0", default-features = false, features = ["blocking"] }
nonzero_ext = "=0.3.0"
reqwest = { version = "=0.11.27", features = ["blocking", "json"] }
rouille = "=3.6.2"
serde = { version = "=1.0.229", features = ["derive"] }
toml = "=0.7.8"
