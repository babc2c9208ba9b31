[package]
name = "syncthing_client"
version = "0.1.0"
edition = "2021"
publish = false

[dependencies]
serde = { version = "1", features = ["derive"] }
serde_json = "1"
http = "0.2"
hyper = { version = "0.14", features = ["full"] }
futures-core = "0.3"
url = "2"
ipnet = "2"
