[package]
name = "wabbit"
version = "0.1.0"
edition = "2021"
publish = false

[dependencies]
dynfmt = { version = "=0.1.5", default-features = false, features = ["curly"] }
clap = { version = "=4.6.7", features = ["derive"] }
annotate-snippets = "=0.9.2"
main_error = "=0.1.2"
