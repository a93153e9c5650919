[package]
name = "jenkins_exporter"
version = "0.1.0"
edition = "2021"
publish = false

[dependencies]
clap = { version = "*", features = ["derive"] }
minreq = { version = "*", features = ["https", "json-using-serde"] }
prometheus_exporter = "*"
serde = { version = "*", features = ["derive"] }
serde_json = "*"
serde_yaml = "*"
