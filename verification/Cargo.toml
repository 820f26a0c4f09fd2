[package]
name = "svg_react_preview"
version = "0.1.0"
edition = "2021"
publish = false

[dependencies]
twox-hash = "2"
swc_common = "*"
swc_ecma_ast = "*"
swc_ecma_parser = "*"
swc_ecma_visit = "*"
anyhow = "1"
