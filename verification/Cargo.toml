[package]
name = "tsc_rs"
version = "0.1.0"
edition = "2021"
publish = false

[dependencies]
oxc_allocator = "0.36.0"
oxc_ast = "0.36.0"
oxc_parser = "0.36.0"
oxc_span = "0.36.0"
