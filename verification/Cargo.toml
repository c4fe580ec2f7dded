[package]
name = "mb-mail-service"
version = "0.1.0"
edition = "2021"
publish = false

[dependencies]
axum = "=0.7.9"
config = { version = "=0.14.1", default-features = false, features = ["convert-case"] }
dashmap = "=6.2.1"
futures = "=0.3.34"
git-testament = "=0.2.6"
html-escape = "=0.2.15"
html2text = { version = "=0.17.4", features = ["css"] }
lettre = { version = "=0.11.23", default-features = false, features = ["builder", "hostname", "pool", "smtp-transport", "tokio1", "tokio1-rustls-tls"] }
listenfd = "=1.0.2"
metrics = "=0.23.1"
mf1 = "=0.1.8"
monostate = "=0.1.18"
mrml = "=4.0.1"
reqwest = { version = "=0.12.28", default-features = false }
sentry = { version = "=0.35.0", default-features = false, features = ["tower", "tower-http", "tracing"] }
serde = { version = "=1.0.229", features = ["derive"] }
serde_json = "=1.0.154"
thiserror = "=1.0.69"
tokio = { version = "=1.54.1", features = ["macros", "net", "rt-multi-thread", "signal"] }
tower = "=0.4.13"
tower-http = { version = "=0.5.2", features = ["timeout", "trace"] }
tracing = "=0.1.44"
tracing-subscriber = { version = "=0.3.23", features = ["env-filter"] }
utoipa = { version = "=4.2.3", features = ["axum_extras"] }
utoipa-swagger-ui = { version = "=7.1.0", features = ["axum"] }
