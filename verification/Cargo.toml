[package]
name = "server"
version = "0.1.0"
edition = "2021"
publish = false

[dependencies]
argon2 = "0.5"
chrono = { version = "0.4", default-features = false, features = ["clock", "std"] }
dotenv = "0.15"
fern = "0.6"
hex = "0.4"
jsonwebtoken = "9"
log = "0.4"
rand_core = { version = "0.6", features = ["getrandom"] }
rocket = { version = "0.5", features = ["json", "secrets"] }
rustls = { version = "0.23", default-features = false, features = ["ring", "std"] }
serde = { version = "1", features = ["derive"] }
serde_json = { version = "1", features = ["preserve_order"] }
sqlx = { version = "0.8", default-features = false, features = ["postgres", "runtime-tokio"] }
