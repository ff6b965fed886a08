[package]
name = "systemair_save_tools"
version = "0.1.0"
edition = "2021"
publish = false

[dependencies]
async-stream = "0.3"
clap = { version = "4", features = ["derive"] }
comfy-table = { version = "7", default-features = false }
csv-core = "0.1"
futures = "0.3"
homie5 = "*"
humantime = "2"
jiff = "0.2"
num-derive = "0.4"
num-traits = "0.2"
reqwest = { version = "0.12", default-features = false, features = ["json"] }
rumqttc = { version = "0.24", default-features = false }
serde = { version = "1", features = ["derive"] }
serde_json = "1"
strum = { version = "0.27", features = ["derive"] }
thiserror = "2"
tokio = { version = "1", features = ["rt", "macros", "net", "time", "sync"] }
tokio-util = { version = "0.7", features = ["codec"] }
tracing = "0.1"
tracing-subscriber = { version = "0.3", features = ["fmt", "registry"] }
