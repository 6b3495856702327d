[package]
name = "syosetu_dl"
version = "0.1.0"
edition = "2021"
publish = false

[dependencies]
kuchiki = "0.8"
serde_json = "1"
ureq = "3"
arg = "*"
