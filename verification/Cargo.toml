[package]
name = "rsmooth"
version = "0.3.0"
edition = "2021"
publish = false

[dependencies]
serde_json = "=1.0.151"
shellexpand = "=3.1.2"
tera = { version = "=2.4.0", features = ["glob_fs"] }
tempfile = "=3.27.0"
clap = "=4.6.7"
