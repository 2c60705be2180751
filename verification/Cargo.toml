[package]
name = "denodo_search"
version = "0.1.0"
edition = "2021"
publish = false

[dependencies]
reqwest = { version = "*", default-features = false, features = ["blocking", "cookies"] }

[dev-dependencies]
regex = "*"
urlencoding = "*"
