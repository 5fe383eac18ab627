[package]
name = "fltk_decl"
version = "0.1.0"
edition = "2021"
publish = false

[dependencies]
fltk = "*"
notify = "*"
serde = "*"
serde_derive = "*"
serde_json = "*"
serde_json5 = "*"
serde-xml-rs = "*"
serde_yaml = "*"
