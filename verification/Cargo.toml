[package]
name = "svc_storage"
version = "0.1.0"
edition = "2021"
publish = false

[dependencies]
rand = "0.8"
chrono = "0.4"
uuid = { version = "1", features = ["v4"] }
serde = { version = "1", features = ["derive"] }
serde_json = "1"
clap = { version = "4", features = ["derive"] }
tokio = { version = "1", features = ["rt-multi-thread", "macros", "signal", "sync"] }
log = "0.4"
thiserror = "1"
anyhow = "1"
dotenv = "0.15"
config = "0.13"
prost-wkt-types = "0.5"
postgis = "0.9"
geo = "0.26"
tonic = "0.10"
deadpool-postgres = "0.12"
