[package]
name = "ionosphere"
version = "0.1.0"
edition = "2021"
publish = false

[dependencies]
lightning-invoice = "*"
url = "*"
serde = { version = "*", features = ["derive"] }
serde_derive = "*"
serde_json = "*"
reqwest = { version = "*", default-features = false, features = ["blocking", "multipart", "json"] }
clightningrpc = "*"
