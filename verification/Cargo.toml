[package]
name = "mus_uc_devtools"
version = "0.1.0"
edition = "2021"
publish = false

[dependencies]
serde_json = "*"
base64 = "*"
clap = "*"
notify = "*"
