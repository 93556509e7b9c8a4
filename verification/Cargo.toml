[package]
name = "business_approval"
version = "0.1.0"
edition = "2021"
publish = false

[dependencies]
lenso = "=0.5.30"
lenso-kernel = "=0.3.13"
lenso-postgres-kit = "=0.1.1"
lenso-capability-secrets = "=0.1.4"
serde = { version = "=1.0.229", features = ["derive"] }
sqlx = { version = "=0.9.0", default-features = false, features = ["postgres", "runtime-tokio", "time"] }
thiserror = "=2.0.21"
time = { version = "=0.3.55", features = ["formatting", "parsing"] }
zeroize = "=1.9.1"
