[package]
name = "jambonz_ws"
version = "0.1.0"
edition = "2021"
publish = false

[dependencies]
actix-web = { version = "4", default-features = false }
actix-ws = "*"
cal-jambonz = "*"
futures-util = "0.3"
serde_json = "1"
tokio = { version = "1", features = ["time"] }
uuid = { version = "1", features = ["v4"] }
