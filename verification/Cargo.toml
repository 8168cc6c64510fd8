[package]
name = "listthedocs"
version = "0.1.0"
edition = "2021"
publish = false

[dependencies]
minreq = { version = "2", features = ["json-using-serde"] }
serde = { version = "1", features = ["derive"] }
serde_derive = "1"
serde_json = "1"
structopt = "0.3"
