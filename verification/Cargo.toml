[package]
name = "prettyprint"
version = "0.1.0"
edition = "2021"
publish = false

[dependencies]
ansi_colours = "1"
ansi_term = "0.12"
content_inspector = "0.2"
encoding = "0.2"
syntect = { version = "4", default-features = false, features = ["default-fancy"] }
