[package]
name = "blueshift_core"
version = "0.1.0"
edition = "2021"
publish = false

[dependencies]
pinocchio = "0.9.3"
pinocchio-token = "0.4.0"
pinocchio-system = "0.3.0"
pinocchio-associated-token-account = "0.2.0"
