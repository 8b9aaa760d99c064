[package]
name = "scan_qc"
version = "0.1.0"
edition = "2021"
publish = false

[dependencies]
regex = "=1.13.1"
little_exif = "=0.5.1"
glob = "=0.3.4"
serde = { version = "=1.0.229", features = ["derive"] }
serde_json = "=1.0.154"
serde_with = "=3.24.0"
actix = "=0.13.5"
actix-web = { version = "=4.18.1", default-features = false, features = ["macros", "ws"] }
actix-cors = "=0.7.2"
actix-web-actors = "=4.3.1"
