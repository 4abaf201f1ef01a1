[package]
name = "ghsql"
version = "0.1.0"
edition = "2021"
publish = false

[dependencies]
anyhow = "=1.0.104"
async-trait = "=0.1.92"
futures = "=0.3.34"
gluesql = { version = "=0.9.0", default-features = false }
http = "=0.2.12"
reqwest = { version = "=0.11.27", default-features = false, features = ["json"] }
rustyline = "=9.1.2"
serde = { version = "=1.0.229", features = ["derive"] }
serde_json = "=1.0.154"
structopt = "=0.3.26"
unicode-width = "=0.1.14"
