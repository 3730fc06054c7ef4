[package]
name = "hack_bindgen"
version = "0.1.0"
edition = "2021"
publish = false

[dependencies]
bindgen = "*"
cexpr = "0.6"
regex = "1"
