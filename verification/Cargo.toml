[package]
name = "tuix"
version = "0.1.0"
edition = "2021"
publish = false

[dependencies]
femtovg = { version = "=0.28.0", default-features = false, features = ["textlayout"] }
