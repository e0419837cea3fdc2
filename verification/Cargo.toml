[package]
name = "zkpdf_prover"
version = "0.1.0"
edition = "2021"
publish = false

[dependencies]
axum = "*"
dotenv = "*"
serde = { version = "*", features = ["derive"] }
tokio = { version = "*", features = ["macros", "rt-multi-thread", "net"] }
tower-http = { version = "*", features = ["cors"] }
tracing = "*"
