[package]
name = "testbed"
version = "0.1.0"
edition = "2021"
publish = false

[dependencies]
serde_json = "=1.0.154"
serde = { version = "=1.0.229", features = ["derive"] }
log = "=0.4.34"
futures = "=0.3.34"
actix = "=0.13.5"
actix-codec = "=0.5.4"
actix-web = { version = "=4.18.1", default-features = false, features = ["macros", "ws"] }
actix-web-actors = "=4.3.1"
awc = { version = "=3.11.0", default-features = false }
diesel = { version = "=2.3.14", features = ["postgres", "r2d2"] }
