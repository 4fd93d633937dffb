[package]
name = "zenoh_nostd"
version = "0.1.0"
edition = "2021"
publish = false

[dependencies]
zenoh-keyexpr = "=1.10.2"
wasm-bindgen = "=0.2.130"
embassy-sync = "*"
embassy-time = "*"
embassy-futures = "*"
