[package]
name = "rust_editor"
version = "0.1.0"
edition = "2021"
publish = false

[dependencies]
crossbeam-channel = "=0.5.17"
crossterm = "=0.29.0"
ratatui = "=0.30.2"
unicode-segmentation = "=1.13.3"
unicode-width = "=0.2.2"
wasmtime = { version = "=47.0.4", default-features = false, features = ["cranelift", "runtime", "std", "wat"] }

[dev-dependencies]
crossbeam-utils = "=0.8.23"
