[package]
name = "router_plugins"
version = "0.1.0"
edition = "2021"
publish = false

[dependencies]
http = "=0.2.12"
mediatype = "=0.19.20"
mime = "=0.3.17"
hyper = "=0.14.32"
tower = { version = "=0.4.13", features = ["util"] }
serde = { version = "=1.0.229", features = ["derive"] }
schemars = "=0.8.22"
tokio = { version = "=1.54.1", features = ["sync", "time", "rt", "macros"] }
futures = "=0.3.34"
async-trait = "=0.1.92"
tracing = "=0.1.44"
tracing-subscriber = { version = "=0.3.23", features = ["env-filter"] }
tracing-opentelemetry = "=0.17.4"
opentelemetry = { version = "=0.17.0", features = ["rt-tokio", "serialize"] }
opentelemetry-jaeger = { version = "=0.16.0", features = ["rt-tokio", "collector_client", "reqwest_collector_client"] }
reqwest = { version = "=0.11.27", default-features = false }
