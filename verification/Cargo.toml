[package]
name = "staff_directory"
version = "0.1.0"
edition = "2021"
publish = false

[dependencies]
bson = "2"
mongodb = "3"
actix-web = "4"
async-trait = "0.1"
derive_more = "0.99"
dotenv = "0.15"
env_logger = "0.11"
futures = "0.3"
log = "0.4"
serde = { version = "1", features = ["derive"] }
serde_json = "1"
thiserror = "1"
