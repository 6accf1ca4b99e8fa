[package]
name = "libretube_sync"
version = "0.1.0"
edition = "2021"
publish = false

[dependencies]
roxmltree = "=0.21.2"
chrono = "=0.4.45"
hmac = "=0.13.0"
sha2 = "=0.11.1"
argon2 = { version = "=0.5.3", features = ["std"] }
uuid = { version = "=1.29.0", features = ["v7"] }
jsonwebtoken = { version = "10", features = ["rust_crypto"] }
serde = { version = "=1.0.229", features = ["derive"] }
actix-web = "=4.18.1"
diesel = { version = "=2.3.14", default-features = false, features = ["postgres_backend", "chrono"] }
diesel-async = { version = "=0.9.2", features = ["postgres", "deadpool"] }
reqwest = { version = "=0.12.28", default-features = false, features = ["rustls-tls"] }
