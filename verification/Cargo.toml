[package]
name = "pdf_prompt_injection_evaluator"
version = "0.1.0"
edition = "2021"
publish = false

[dependencies]
regex = "1"
lopdf = "0.34"
sha2 = "0.10"
genpdf = "0.2"
serde = { version = "1", features = ["derive"] }
serde_json = "1"
chrono = "0.4"
dirs = "5"
thiserror = "1"
reqwest = { version = "0.12", default-features = false, features = ["json", "rustls-tls"] }
tokio = { version = "1", features = ["rt-multi-thread", "macros"] }
