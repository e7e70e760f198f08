[package]
name = "secure_artifact_manager"
version = "0.1.0"
edition = "2021"
publish = false

[dependencies]
sha2 = "=0.10.9"
uuid = { version = "=1.29.0", features = ["v4"] }
getrandom = "=0.4.3"
chrono = { version = "=0.4.45", default-features = false, features = ["clock", "std"] }
serde = { version = "=1.0.229", features = ["derive"] }
serde_json = "=1.0.154"
actix-web = { version = "=4.18.1", default-features = false, features = ["macros"] }
actix-multipart = { version = "=0.7.2", default-features = false }
actix-cors = "=0.7.2"
futures-util = "=0.3.34"
log = "=0.4.35"
env_logger = { version = "=0.11.11", default-features = false }
dotenv = "=0.15.0"
sqlx = { version = "=0.8.6", default-features = false, features = ["runtime-tokio", "postgres", "macros", "migrate"] }
aws-config = { version = "=1.13.0", default-features = false, features = ["rt-tokio", "behavior-version-latest"] }
aws-sdk-s3 = { version = "=1.157.0", default-features = false, features = ["rt-tokio", "behavior-version-latest"] }
reqwest = { version = "=0.12.28", default-features = false, features = ["json", "multipart", "rustls-tls"] }
clap = { version = "=4.6.7", features = ["derive"] }
colored = "=2.2.0"
tokio = { version = "=1.54.1", features = ["macros", "rt-multi-thread"] }
