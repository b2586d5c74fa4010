[package]
name = "key_extractor"
version = "0.1.0"
edition = "2021"
publish = false

[dependencies]
rustc-hash = "=2.1.3"
serde = { version = "=1.0.229", features = ["derive"] }
serde_json = "=1.0.151"
swc_core = { version = "=82.0.0", features = ["ecma_plugin_transform", "transform_common"] }
swc_ecma_ast = "=29.0.2"
swc_ecma_visit = "=29.0.0"
swc_plugin_macro = "=2.0.0"
