[package]
name = "todomvc"
version = "0.1.0"
edition = "2021"
publish = false

[dependencies]
log = "0.4"
regex = "=1.13.1"
serde = { version = "1", features = ["derive"] }
serde_derive = "1"
strum = "0.18"
strum_macros = "0.18"
yew = { version = "0.14", features = ["web_sys"] }
