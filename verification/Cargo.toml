[package]
name = "intra_api"
version = "0.1.0"
edition = "2021"
publish = false

[dependencies]
serde_json = "*"
serde = { version = "*", features = ["derive"] }
actix-web = { version = "*", default-features = false, features = ["macros"] }
actix-rt = "*"
reqwest = { version = "*", default-features = false, features = ["json"] }
