[package]
name = "newt-todo"
version = "0.1.0"
edition = "2021"
publish = false

[dependencies]
url = "2"
sha2 = "0.10"
base64 = "0.22"
serde_json = "1"
serde = { version = "1", features = ["derive"] }
jsonwebtoken = "9"
argon2 = "0.5"
time = { version = "0.3", features = ["formatting", "parsing", "macros"] }
uuid = { version = "1", features = ["v4"] }
tokio = { version = "1", features = ["rt-multi-thread", "macros", "sync"] }
sqlx = { version = "0.8", default-features = false, features = ["sqlite", "runtime-tokio"] }
reqwest = { version = "0.12", default-features = false, features = ["json"] }
anyhow = "1"
thiserror = "2"
async-trait = "0.1"
keyring = "3"
directories = "5"
