[package]
name = "hvac_design_app"
version = "0.1.0"
edition = "2021"
publish = false

[dependencies]
base64 = "=0.21.7"
fs2 = "0.4"
open = "5"
reqwest = { version = "0.12", features = ["json"] }
serde = { version = "1", features = ["derive"] }
serde_json = "=1.0.154"
tiny_http = "0.12"
url = "=2.5.8"
urlencoding = "=2.1.3"
