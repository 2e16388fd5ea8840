[package]
name = "feed2imap"
version = "0.1.0"
edition = "2021"
publish = false

[dependencies]
anyhow = "1"
async-imap = { version = "0.10", default-features = false, features = ["runtime-tokio"] }
blake3 = "1"
bytes = "1"
chrono = "0.4"
clap = { version = "4", features = ["derive", "env"] }
directories = "5"
feed-rs = "2"
futures = "0.3"
html-escape = "0.2"
indicatif = "0.17"
log = "0.4"
lol_html = "2"
mail-builder = "*"
mail-parser = "*"
pretty_env_logger = "0.5"
reqwest = { version = "0.12", default-features = false, features = ["rustls-tls"] }
serde = { version = "1", features = ["derive"] }
tokio = { version = "1", features = ["rt-multi-thread", "macros", "net", "sync"] }
tokio-rustls = "0.26"
toml = "0.8"
url = "2"
webpki-roots = "0.26"
