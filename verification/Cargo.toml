[package]
name = "urpc_client"
version = "0.1.0"
edition = "2021"
publish = false

[dependencies]
urpc = "*"
clap = "2"
serial = "0.4"
