[package]
name = "gumball"
version = "0.1.0"
edition = "2021"
publish = false

[dependencies]
base64 = "=0.13.1"
secret-cosmwasm-std = "=0.10.1"
secret-cosmwasm-storage = "=0.10.0"
secret-toolkit = { version = "=0.3.0", features = ["crypto", "permit"] }
secret-toolkit-crypto = { version = "=0.3.0", features = ["hash"] }
serde = { version = "=1.0.229", features = ["derive"] }
