[package]
name = "ironflow_rs"
version = "0.1.0"
edition = "2021"
publish = false

[dependencies]
uuid = { version = "=1.29.0", features = ["v4", "serde"] }
chrono = { version = "=0.4.45", features = ["serde"] }
regex = "=1.13.1"
serde = { version = "=1.0.229", features = ["derive"] }
serde_json = "=1.0.154"
tokio = { version = "=1.54.1", features = ["full"] }
async-trait = "=0.1.92"
futures = "=0.3.34"
reqwest = { version = "=0.12.28", default-features = false, features = ["json", "rustls-tls"] }
redis = { version = "=0.27.6", features = ["tokio-comp", "connection-manager"] }
lapin = { version = "=2.5.5", default-features = false }
notify = { version = "=6.1.1", default-features = false }
opendal = { version = "=0.50.2", features = ["services-fs", "services-sftp", "services-s3", "services-azblob", "services-ftp"] }
vaultrs = "=0.7.4"
anyhow = "=1.0.104"
dotenv = "=0.15.0"
pretty_env_logger = "=0.5.0"
log = "=0.4.35"
suppaftp = { version = "=6.0.3", default-features = false }
config = { version = "=0.14.1", default-features = false }

[dev-dependencies]
tempfile = "=3.27.0"
