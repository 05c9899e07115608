[package]
name = "rmap_cli_core"
version = "0.1.0"
edition = "2021"
publish = false

[dependencies]
clap = "=3.2.25"
async-io = "=1.13.0"
