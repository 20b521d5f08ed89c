[package]
name = "trojan_supervisor"
version = "0.1.0"
edition = "2021"
publish = false

[dependencies]
serde_json = "1"
json5 = "0.4"
sysproxy = "*"
