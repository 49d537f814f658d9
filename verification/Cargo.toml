[package]
name = "straico_proxy"
version = "0.1.0"
edition = "2021"
publish = false

[dependencies]
actix-web = { version = "4", default-features = false, features = ["macros", "rustls-0_23"] }
anyhow = "1"
bytes = "1"
clap = { version = "4", features = ["derive", "env"] }
flexi_logger = "*"
futures = "0.3"
log = "0.4"
rand = "0.8"
rcgen = "0.13"
reqwest = { version = "0.12", default-features = false, features = ["json", "stream", "rustls-tls"] }
rustls = "0.23"
rustls-pemfile = "2"
serde = { version = "1", features = ["derive"] }
serde_json = "1"
serde_yaml = "0.9"
thiserror = "1"
tokio = { version = "1", features = ["macros", "rt-multi-thread", "time"] }
tokio-stream = { version = "0.1", features = ["time"] }
toml = "0.8"
uuid = { version = "1", features = ["v4"] }
