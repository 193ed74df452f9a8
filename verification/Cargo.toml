[package]
name = "orchestrator_convos"
version = "0.1.0"
edition = "2021"
publish = false

[dependencies]
common-game = "*"
crossbeam-channel = "*"
dashmap = "*"
