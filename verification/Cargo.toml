[package]
name = "cjs_lexer"
version = "0.1.0"
edition = "2021"
publish = false

[dependencies]
serde = { version = "*", features = ["derive"] }
serde-wasm-bindgen = "*"
swc_common = "*"
swc_ecmascript = { version = "*", features = ["parser"] }
wasm-bindgen = "*"
