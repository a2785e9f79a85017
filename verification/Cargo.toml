[package]
name = "ulink_zenoh"
version = "0.1.0"
edition = "2021"
publish = false

[dependencies]
async-trait = "=0.1.92"
prost = "=0.12.6"
zenoh = { version = "=0.11.0", default-features = false, features = ["unstable", "transport_tcp"] }
