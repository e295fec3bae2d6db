[package]
name = "fortuna"
version = "0.1.0"
edition = "2021"
publish = false

[dependencies]
sha2 = "0.10"
serde_json = "1"
chrono = "0.4"
thiserror = "1"
async-trait = "0.1"
naumachia = "*"
