[package]
name = "creep_engine"
version = "0.1.0"
edition = "2021"
publish = false

[dependencies]
screeps-game-api = "=0.20.1"
js-sys = "0.3"
wasm-bindgen = "=0.2.92"
log = "0.4"
