[package]
name = "route53_dyndns"
version = "0.1.0"
edition = "2021"
publish = false

[dependencies]
anyhow = "=1.0.104"
aws-config = "=1.13.0"
aws-credential-types = "=1.3.1"
aws-sdk-route53 = "=1.130.0"
clap = { version = "=4.6.7", features = ["derive", "env", "string"] }
log = "=0.4.34"
reqwest = { version = "=0.12.28", default-features = false, features = ["rustls-tls"] }
serde = { version = "=1.0.229", features = ["derive"] }
simple_logger = "=5.2.0"
tokio = { version = "=1.54.1", features = ["macros", "rt-multi-thread", "signal", "time"] }
tokio-util = "=0.7.20"
