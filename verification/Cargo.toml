[package]
name = "edit_session"
version = "0.1.0"
edition = "2021"
publish = false

[dependencies]
tokio = { version = "*", default-features = false, features = ["rt", "fs"] }
rfd = { version = "*", default-features = false, features = ["xdg-portal", "tokio"] }
