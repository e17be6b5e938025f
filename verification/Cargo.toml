[package]
name = "day_applet"
version = "0.1.0"
edition = "2021"
publish = false

[dependencies]
jiff = "0.2"
icu = "2"
serde = { version = "1", features = ["derive"] }
serde_json = "1"
tokio = { version = "1", features = ["sync", "time", "macros", "rt"] }
tracing = "0.1"
zbus = "5"
logind-zbus = "*"
timedate-zbus = "*"
