[package]
name = "hako_server"
version = "0.1.0"
edition = "2021"
publish = false

[dependencies]
aws-config = "=0.9.0"
aws-sdk-ecs = "=0.9.0"
aws-sdk-s3 = "=0.9.0"
aws-smithy-client = "=0.39.0"
anyhow = "1"
futures-util = "0.3"
jrsonnet-evaluator = "0.4"
listenfd = "1"
prost = "0.9"
serde = { version = "1", features = ["derive"] }
serde_json = "1"
structopt = "0.3"
tokio = { version = "1", features = ["macros", "rt-multi-thread", "fs", "net"] }
tokio-stream = { version = "0.1", features = ["net"] }
tonic = "0.6"
tower = "0.4"
tower-http = { version = "0.2", features = ["trace"] }
tracing = "0.1"
tracing-subscriber = { version = "0.3", features = ["env-filter"] }
walkdir = "2"
