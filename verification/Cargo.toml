[package]
name = "rustbill_core"
version = "0.1.0"
edition = "2021"
publish = false

[dependencies]
anyhow = "1"
argon2 = "0.5"
async-trait = "0.1"
bcrypt = "0.15"
chrono = "0.4"
hex = "0.4"
printpdf = { version = "0.7", default-features = false }
rand = "0.8"
reqwest = { version = "0.12", default-features = false, features = ["json"] }
rust_decimal = "1"
serde = { version = "1", features = ["derive"] }
serde_json = "1"
sha2 = "0.10"
sqlx = { version = "0.8", default-features = false, features = ["postgres", "runtime-tokio", "chrono", "rust_decimal", "derive"] }
tokio = { version = "1", features = ["rt", "rt-multi-thread"] }
urlencoding = "2"
