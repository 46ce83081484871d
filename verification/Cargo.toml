[package]
name = "bisky"
version = "0.1.0"
edition = "2021"
publish = false

[dependencies]
serde = { version = "*", features = ["derive"] }
serde_json = "*"
serde_bytes = "*"
reqwest = { version = "*", default-features = false, features = ["json"] }
tokio = { version = "*", features = ["rt", "time", "fs"] }
chrono = { version = "*", features = ["serde"] }
ciborium = "*"
cid = "*"
serde_ipld_dagcbor = "*"
