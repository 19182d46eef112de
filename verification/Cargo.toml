[package]
name = "mdzk-language-server"
version = "0.1.0"
edition = "2021"
publish = false

[dependencies]
mdbook = { version = "=0.4.21", default-features = false }
mdzk = "=0.4.3"
thiserror = "=1.0.69"
tokio = { version = "=1.54.1", features = ["io-std", "macros", "rt-multi-thread", "sync"] }
tower-lsp = "=0.17.0"
