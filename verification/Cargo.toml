[package]
name = "smbench"
version = "0.1.0"
edition = "2021"
publish = false

[dependencies]
regex = "*"
argparse = "*"
order-stat = "*"
platforms = "*"
serde = "*"
serde_json = "*"
