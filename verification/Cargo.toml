[package]
name = "slashkit"
version = "0.1.0"
edition = "2021"
publish = false

[dependencies]
serenity = "0.12"
tokio = { version = "1", features = ["macros", "rt-multi-thread"] }
async-trait = "0.1"
inventory = "0.3"
dotenv = "0.15"
