[package]
name = "tempest"
version = "0.1.0"
edition = "2021"
publish = false

[dependencies]
url = "2"
dirs = "5"
which = "6"
sha2 = "0.10"
serde = { version = "1", features = ["derive"] }
serde_json = "1"
toml = "0.8"
colored = "2"
ctrlc = "3"
flate2 = "1"
tar = "0.4"
futures-util = "0.3"
libc = "0.2"
tracing = "0.1"
time = { version = "0.3", features = ["formatting", "macros"] }
tokio = { version = "1", features = ["macros", "rt-multi-thread"] }
reqwest = { version = "0.12", default-features = false, features = ["json", "cookies", "stream", "rustls-tls"] }
