[package]
name = "healthwatch"
version = "0.1.0"
edition = "2021"
publish = false

[dependencies]
chrono = "*"
colored = "*"
http = "*"
reqwest = { version = "*", default-features = false, features = ["blocking"] }
structopt = "*"
url = "*"
