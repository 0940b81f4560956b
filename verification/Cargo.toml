[package]
name = "jsx_dom_expressions"
version = "0.1.0"
edition = "2021"
publish = false

[dependencies]
html-escape = "*"
