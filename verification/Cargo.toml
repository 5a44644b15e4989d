[package]
name = "lockup"
version = "0.1.0"
edition = "2021"

[dependencies]
secret-toolkit = { version = "=0.2.0", features = ["crypto"] }
secret-cosmwasm-std = "=0.10.1"
secret-cosmwasm-storage = "=0.10.0"
serde = { version = "1", features = ["derive"] }
