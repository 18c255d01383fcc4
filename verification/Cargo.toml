[package]
name = "commit_summarizer"
version = "0.1.0"
edition = "2021"
publish = false

[dependencies]
anyhow = "1"
tera = { version = "1", default-features = false }
tokio = { version = "1", features = ["macros", "rt", "rt-multi-thread"] }
