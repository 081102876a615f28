[package]
name = "awr_team_pg"
version = "0.1.0"
edition = "2021"
publish = false

[dependencies]
serde = { version = "1", features = ["derive"] }
serde_json = "1"
sha2 = "0.10"
tokio-postgres = { version = "0.7", features = ["with-serde_json-1"] }
ulid = "1"
