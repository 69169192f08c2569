[package]
name = "login_manager"
version = "0.1.0"
edition = "2021"
publish = false

[dependencies]
nix = { version = "=0.30.1", features = ["fs", "process", "user"] }
rpassword = "=7.5.4"
