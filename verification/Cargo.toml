[package]
name = "oxc_ecmascript"
version = "0.1.0"
edition = "2021"
publish = false

[dependencies]
oxc_ast = "=0.60.0"
oxc_index = "=3.1.0"
