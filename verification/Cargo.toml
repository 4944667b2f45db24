[package]
name = "vm_api_server"
version = "0.1.0"
edition = "2021"
publish = false

[dependencies]
micro-http = "*"
threadpool = "*"
