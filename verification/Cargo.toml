[package]
name = "clap_link"
version = "0.1.0"
edition = "2021"
publish = false

[dependencies]
clap = { version = "4", features = ["derive", "string"] }
clap-markdown = "*"
colored = "*"
wolfram-app-discovery = "*"
wolfram-expr = "*"
wolfram-library-link = "*"
