[package]
name = "mailbox"
version = "0.1.0"
edition = "2021"
publish = false

[dependencies]
event-listener = "2.5"
futures-core = "0.3"
futures-util = "0.3"
