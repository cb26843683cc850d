[package]
name = "socket_broker"
version = "0.1.0"
edition = "2021"
publish = false

[dependencies]
crossbeam = "0.8"
jni = "0.21"
