[package]
name = "ws_proto"
version = "0.1.0"
edition = "2021"
publish = false

[dependencies]
sha1 = "=0.10.7"
base64 = "=0.22.1"
http = "=1.5.0"
bytes = "=1.12.1"
serde = "=1.0.229"
serde_json = "1"
serde_urlencoded = "0.7"
futures-core = "=0.3.34"
