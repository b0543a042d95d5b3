[package]
name = "unei"
version = "0.1.0"
edition = "2021"
publish = false

[dependencies]
actix-identity = "0.7"
actix-session = { version = "0.9", features = ["cookie-session"] }
actix-web = { version = "4", default-features = false, features = ["macros", "cookies"] }
async-trait = "0.1"
chrono = { version = "0.4", default-features = false, features = ["std", "clock"] }
log = "0.4"
oauth2 = { version = "4", default-features = false, features = ["reqwest", "rustls-tls"] }
reqwest = { version = "0.11", default-features = false, features = ["json", "rustls-tls"] }
sea-orm = { version = "0.12", default-features = false, features = ["macros", "with-uuid", "with-chrono", "sqlx-postgres", "runtime-tokio-rustls"] }
sea-orm-migration = { version = "0.12", default-features = false, features = ["sqlx-postgres", "runtime-tokio-rustls"] }
serde = { version = "1", features = ["derive"] }
sqlx = { version = "0.7", default-features = false, features = ["postgres", "runtime-tokio-rustls"] }
uuid = { version = "1", features = ["v7"] }
