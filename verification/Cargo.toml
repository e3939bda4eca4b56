[package]
name = "fullpage_capture"
version = "0.1.0"
edition = "2021"
publish = false

[dependencies]
image = { version = "=0.25.10", default-features = false, features = ["png"] }
serde_json = "=1.0.154"
thirtyfour = "=0.38.1"
tokio = { version = "=1.54.1", features = ["time", "rt-multi-thread", "macros"] }
log = "=0.4.34"
log4rs = "*"
reqwest = { version = "=0.13.5", features = ["blocking", "json"] }
zip = "=9.0.5"
tar = "=0.4.46"
flate2 = "=1.1.10"
rusb = "=0.9.4"
