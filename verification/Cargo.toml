[package]
name = "ygege"
version = "0.1.0"
edition = "2021"
publish = false

[dependencies]
serde = { version = "=1.0.229", features = ["derive"] }
serde_json = "=1.0.154"
urlencoding = "=2.1.3"
qstring = "=0.7.2"
log = "=0.4.35"
futures = "=0.3.34"
tokio = { version = "=1.54.1", features = ["macros", "rt-multi-thread", "time", "sync"] }
actix-web = "=4.18.1"
trust-dns-resolver = "=0.23.2"
wreq = { version = "=0.15.3", features = ["json"] }
