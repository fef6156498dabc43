[package]
name = "brupop"
version = "1.4.0"
edition = "2021"
publish = false

[dependencies]
actix-web = { version = "4", default-features = false, features = ["macros", "rustls-0_23"] }
argh = "0.1"
async-trait = "0.1"
aws-config = { version = "1", default-features = false, features = ["behavior-version-latest", "rt-tokio", "rustls"] }
aws-sdk-eks = { version = "1", default-features = false, features = ["behavior-version-latest", "rt-tokio", "rustls"] }
aws-sdk-iam = { version = "1", default-features = false, features = ["behavior-version-latest", "rt-tokio", "rustls"] }
aws-sdk-ssm = { version = "1", default-features = false, features = ["behavior-version-latest", "rt-tokio", "rustls"] }
base64 = "0.13"
chrono = "0.4"
cron = "0.12"
futures = "0.3"
governor = "0.6"
k8s-openapi = { version = "0.21", default-features = false, features = ["v1_28"] }
kube = { version = "0.88", default-features = false, features = ["client", "derive", "runtime", "rustls-tls"] }
opentelemetry = "0.20"
opentelemetry-prometheus = "0.13"
prometheus = "0.13"
reqwest = { version = "0.11", default-features = false, features = ["json", "rustls-tls"] }
rustls = { version = "0.23", default-features = false, features = ["ring", "std", "tls12"] }
rustls-pemfile = "2"
schemars = "0.8"
semver = "1"
serde = { version = "1", features = ["derive"] }
serde_json = "1"
tokio = { version = "1", features = ["macros", "rt-multi-thread", "signal", "time", "fs"] }
tokio-retry = "0.3"
tracing = "0.1"
tracing-subscriber = { version = "0.3", features = ["env-filter", "json"] }

[dev-dependencies]
regex = "1"
