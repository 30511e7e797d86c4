[package]
name = "shub"
version = "0.1.0"
edition = "2021"
publish = false

[dependencies]
anyhow = "1"
base64 = "0.13"
chrono = { version = "0.4", features = ["serde"] }
clap = { version = "3", features = ["derive"] }
console = "0.15"
dialoguer = "0.10"
directories-next = "2"
futures = "0.3"
git2 = "0.14"
http = "1"
octocrab = "0.40"
rusqlite = { version = "0.27", features = ["bundled"] }
serde = { version = "1", features = ["derive"] }
serde_json = "1"
tabwriter = "1"
tokio = { version = "1", features = ["full"] }
tracing = "0.1"
tracing-subscriber = { version = "0.3", features = ["env-filter"] }
unicode-segmentation = "1"

[dev-dependencies]
quickcheck = "1"
