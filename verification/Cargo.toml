[package]
name = "backend_bro"
version = "0.1.0"
edition = "2021"
publish = false

[dependencies]
serde_json = "1"
serde = { version = "1", features = ["derive"] }
reqwest = { version = "0.12", features = ["json"] }
tokio = { version = "1", features = ["macros", "rt-multi-thread", "time"] }
crossterm = "0.28"
dotenv = "0.15"
async-trait = "0.1"
actix-web = { version = "4", default-features = false, features = ["macros"] }
actix-cors = "0.7"
