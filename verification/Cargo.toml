[package]
name = "tari_deploy"
version = "0.1.0"
edition = "2021"
publish = false

[dependencies]
anyhow = "=1.0.104"
cargo_toml = "=1.0.1"
clap = { version = "=4.6.7", features = ["derive"] }
convert_case = "=0.12.0"
human_bytes = "=0.4.3"
serde = { version = "=1.0.229", features = ["derive"] }
serde_json = "=1.0.151"
tari_engine = "=0.45.0"
tari_engine_types = "=0.45.0"
tari_template_lib = "=0.34.0"
thiserror = "=2.0.21"
tokio = { version = "=1.53.2", features = ["fs", "macros", "process", "rt-multi-thread"] }
toml = "=1.1.7"
url = "=2.5.8"
