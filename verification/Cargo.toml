[package]
name = "pueue"
version = "0.1.0"
edition = "2021"
publish = false

[dependencies]
anyhow = "*"
async-std = "*"
async-trait = "*"
config = "*"
crossterm = "*"
log = "*"
rand = "*"
serde = "*"
serde_derive = "*"
serde_yaml = "*"
tui = "*"
