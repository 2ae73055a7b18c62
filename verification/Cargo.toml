[package]
name = "temp_rs_ddd"
version = "0.1.0"
edition = "2021"
publish = false

[dependencies]
anyhow = "*"
serde = { version = "*", features = ["derive"] }
serde_json = "*"
tokio = { version = "*", features = ["full"] }
tracing = "*"
clap = { version = "*", features = ["derive"] }
bytes = "*"
rdkafka = "*"
moka = { version = "*", features = ["future"] }
redis = { version = "*", features = ["tokio-comp", "cluster-async"] }
deadpool-redis = { version = "*", features = ["cluster"] }
tokio-postgres = "*"
deadpool-postgres = "*"
native-tls = "*"
postgres-native-tls = "*"
scylla = { version = "*", features = ["rustls-023"] }
rustls = { version = "*", default-features = false, features = ["ring", "std"] }
tonic = { version = "*", features = ["tls-ring"] }
tonic-health = "*"
axum = "*"
aws-sdk-s3 = { version = "*", default-features = false, features = ["rt-tokio", "behavior-version-latest"] }
aws-credential-types = "*"
qdrant-client = { version = "*", default-features = false }
config = { version = "*", default-features = false, features = ["toml"] }
