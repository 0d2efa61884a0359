[package]
name = "astra_receiver"
version = "0.1.0"
edition = "2021"
publish = false

[dependencies]
actix-web = { version = "4", default-features = false, features = ["macros"] }
dotenv = "0.15"
rand = "0.8"
serde = { version = "1", features = ["derive"] }
