[package]
name = "cvm-tools"
version = "0.1.0"
edition = "2021"
publish = false

[dependencies]
anyhow = "1"
clap = "4"
indicatif = "0.17"
ureq = "2"
