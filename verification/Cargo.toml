[package]
name = "wakatime_bot"
version = "0.1.0"
edition = "2021"
publish = false

[dependencies]
async-trait = "=0.1.92"
chrono = "=0.4.45"
color-eyre = "=0.6.5"
dotenv = "=0.15.0"
duration-str = "=0.21.0"
git2 = "=0.18.3"
log = "=0.4.34"
opentelemetry = { version = "=0.21.0", features = ["logs"] }
opentelemetry-appender-log = "=0.2.0"
opentelemetry-semantic-conventions = "=0.13.0"
opentelemetry-stdout = { version = "=0.2.0", features = ["logs"] }
opentelemetry_sdk = { version = "=0.21.2", features = ["logs", "logs_level_enabled"] }
reqwest = "=0.11.27"
reqwest-middleware = "=0.2.5"
reqwest-retry = "=0.2.3"
serde = { version = "=1.0.229", features = ["derive"] }
serde_json = "=1.0.154"
task-local-extensions = "=0.1.4"
tempfile = "=3.27.0"
tokio = { version = "=1.54.1", features = ["macros", "rt-multi-thread"] }
toml = "=0.8.23"
url = "=2.5.8"
