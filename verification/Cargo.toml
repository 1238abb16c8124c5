[package]
name = "cantara"
version = "0.1.0"
edition = "2021"
publish = false

[dependencies]
leptos = { version = "0.6", features = ["csr"] }
log = "0.4"
console_error_panic_hook = "0.1"
