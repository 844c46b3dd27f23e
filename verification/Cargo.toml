[package]
name = "gnomon"
version = "0.1.0"
edition = "2021"
publish = false

[dependencies]
uuid = { version = "=1.29.0", features = ["v5"] }
jiff = "=0.2.39"
calico = "=0.5.0"
jscalendar = { version = "=0.1.0", features = ["serde_json"] }
calendar-types = "=0.1.0"
rfc5545-types = "=0.1.0"
serde = { version = "=1.0.229", features = ["derive"] }
serde_json = "=1.0.154"
etcetera = "=0.11.0"
ureq = { version = "=3.5.1", default-features = false }
