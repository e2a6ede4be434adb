[package]
name = "fatcat_api_spec"
version = "0.1.0"
edition = "2021"
publish = false

[dependencies]
uuid = { version = "=0.7.4", features = ["v4"] }
url = "=1.7.2"
iron = "=0.6.1"
router = "=0.6.0"
urlencoded = "=0.6.0"
bodyparser = "=0.8.0"
serde_json = "=1.0.154"
serde_ignored = "=0.0.4"
