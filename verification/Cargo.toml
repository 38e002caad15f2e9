[package]
name = "kty"
version = "0.1.0"
edition = "2021"
publish = false

[dependencies]
chrono = "=0.4.45"
umask = "=2.1.0"
regex = "=1.13.1"
eyre = "=0.6.14"
russh-sftp = "=2.4.0"
strum = { version = "=0.26.3", features = ["derive"] }
itertools = "=0.13.0"
kube = { version = "=0.95.0", default-features = false, features = ["client"] }
k8s-openapi = { version = "=0.23.0", features = ["latest"] }
clap = { version = "=4.6.7", features = ["derive"] }
serde = { version = "=1.0.229", features = ["derive"] }
serde_json = "=1.0.154"
tokio = { version = "=1.54.1", features = ["macros", "rt-multi-thread"] }
jsonwebtoken = "=9.3.1"
serde_yaml = "=0.9.34"
petgraph = { version = "0.6", default-features = false }
