[package]
name = "rtc_session"
version = "0.1.0"
edition = "2021"
publish = false

[dependencies]
rtcp = "*"
interceptor = "*"
tokio = { version = "*", features = ["sync", "rt", "macros", "time"] }
log = "*"
bytes = "*"
url = "*"
