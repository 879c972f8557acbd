[package]
name = "mssql_session"
version = "0.1.0"
edition = "2021"
publish = false

[dependencies]
async-std = "=1.13.2"
connection-string = "=0.2.0"
serde_json = { version = "=1.0.154", features = ["preserve_order"] }
tiberius = { version = "=0.12.3", features = ["sql-browser-async-std"] }
