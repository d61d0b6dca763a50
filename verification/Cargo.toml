[package]
name = "graph"
version = "0.1.0"
edition = "2021"
publish = false

[dependencies]
chrono = { version = "0.4", features = ["serde"] }
uuid = { version = "1", features = ["v4", "serde"] }
serde = { version = "1", features = ["derive"] }
serde_json = "1"
thiserror = "1"
tokio = { version = "1", features = ["rt-multi-thread", "macros", "sync", "time", "net"] }
async-trait = "0.1"
futures = "0.3"
axum = "0.7"
tower-http = { version = "0.5", features = ["trace"] }
tracing = "0.1"
tracing-subscriber = "0.3"
aws-config = "1"
aws-sdk-dynamodb = "1"
aws-sdk-neptune = "1"
aws-sdk-opensearch = "1"
aws-sdk-s3 = "1"
aws-sdk-sqs = "1"
opensearch = { version = "2", default-features = false, features = ["rustls-tls"] }
gremlin-client = "0.8"
backoff = { version = "0.4", features = ["tokio"] }
dashmap = "5"
rand = "0.8"
regex = "1"
url = "2"
log = "0.4"
metrics = "0.21"
erased-serde = "0.4"

[dev-dependencies]
