[package]
name = "dynds"
version = "0.1.0"
edition = "2021"
publish = false

[dependencies]
bigdecimal = "*"
diesel = { version = "*", features = ["postgres", "numeric"] }
