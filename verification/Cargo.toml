[package]
name = "codexcli"
version = "0.1.0"
edition = "2021"
publish = false

[dependencies]
clap = { version = "4", features = ["derive"] }
console = "0.15"
duct = "0.13"
figlet-rs = "0.1"
indicatif = "0.17"
owo-colors = "4"
