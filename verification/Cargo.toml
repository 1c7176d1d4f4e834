[package]
name = "auth_service"
version = "0.1.0"
edition = "2021"
publish = false

[dependencies]
openidconnect = "=3.5.0"
jsonwebtoken = "=9.3.1"
uuid = { version = "1", features = ["serde", "v4"] }
urldecode = "=0.1.1"
serde = { version = "1", features = ["derive"] }
serde_json = "1"
actix-web = { version = "4", default-features = false, features = ["macros", "cookies"] }
actix-rt = "2"
log = "0.4"
env_logger = "0.11"
dotenv = "0.15"
config = { version = "0.14", default-features = false, features = ["json"] }
getset = "0.1"
anyhow = "1"
lazy_static = "1"
kafka = { version = "0.10", default-features = false }
