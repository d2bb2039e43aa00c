[package]
name = "qubit-dcl"
version = "0.13.0"
edition = "2021"
publish = false

[dependencies]
log = "*"
qubit-lock = "*"
qubit-function = "*"
