[package]
name = "metadata_provider"
version = "0.1.0"
edition = "2021"
publish = false

[dependencies]
secret-toolkit = { version = "*", features = ["crypto", "utils"] }
cosmwasm-std = "*"
cosmwasm-storage = "*"
