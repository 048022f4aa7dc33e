[package]
name = "vector_store_uploader"
version = "0.1.0"
edition = "2021"
publish = false

[dependencies]
async-openai = "0.28"
async-trait = "0.1"
directories = "*"
futures = "0.3"
pdf-extract = "*"
pinecone-sdk = "0.1"
serde = { version = "1", features = ["derive"] }
serde_json = "1"
tokio = { version = "1", features = ["full"] }
