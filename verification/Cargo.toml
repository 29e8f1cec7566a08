[package]
name = "imexport"
version = "0.1.0"
edition = "2021"
publish = false

[dependencies]
rust_xlsxwriter = "*"
calamine = "*"
chrono = "*"
wasm-bindgen = "*"
