[package]
name = "ws_bridge"
version = "0.1.0"
edition = "2021"
publish = false

[dependencies]
ws = "0.9"
chrono = { version = "0.4", default-features = false, features = ["clock", "std"] }
dotenv = "0.15"
local_ipaddress = "0.1"
