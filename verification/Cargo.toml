[package]
name = "dothub"
version = "0.1.0"
edition = "2021"
publish = false

[dependencies]
anyhow = "*"
clap = "*"
exec = "*"
fork = "*"
fs_extra = "*"
notify = "*"
toml = "*"
