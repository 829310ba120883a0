[package]
name = "twitchchat"
version = "0.1.0"
edition = "2021"
publish = false

[dependencies]
async-channel = "=2.5.0"
simple_event_map = "=0.2.0"
futures-lite = "=2.6.1"
flume = "=0.12.0"
futures = "0.3"
futures-timer = "3"
async-mutex = "1"
async-dup = "1"

[dev-dependencies]
serde_json = "1"
rmp-serde = "1"
