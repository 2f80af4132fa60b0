[package]
name = "rusty_bot"
version = "0.1.0"
edition = "2021"
publish = false

[dependencies]
hex = "=0.4.3"
hmac = "=0.13.0"
sha2 = "=0.11.1"
chrono = "=0.4.45"
colored = "=3.1.1"
convert_case = "=0.12.0"
dotenv = "=0.15.0"
env_logger = "=0.11.11"
futures-util = "=0.3.34"
http = "=1.5.0"
log = "=0.4.34"
reqwest = { version = "=0.13.5", features = ["json"] }
serde = { version = "=1.0.229", features = ["derive"] }
serde_json = "=1.0.154"
tokio = { version = "=1.54.1", features = ["macros", "rt-multi-thread", "time", "net", "sync"] }
tokio-tungstenite = { version = "=0.30.0", features = ["rustls-tls-native-roots"] }
tungstenite = "=0.30.0"
