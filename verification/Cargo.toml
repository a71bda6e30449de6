[package]
name = "uwu"
version = "0.1.0"
edition = "2021"
publish = false

[dependencies]
swc = "=80.0.1"
swc_common = { version = "=26.0.0", features = ["tty-emitter"] }
swc_ecma_ast = "=29.0.2"
swc_ecma_parser = "=46.1.2"
