[package]
name = "engine_test_doubles"
version = "0.1.0"
edition = "2021"
publish = false

[dependencies]
aurora-engine-sdk = { version = "=2.0.1", features = ["std"] }
aurora-engine-types = { version = "=3.0.0", features = ["std"] }
aurora-engine-transactions = { version = "=1.4.0", features = ["std"] }
borsh = "=1.8.1"
ethabi = "=18.0.0"
hex = "=0.4.3"
serde_json = "=1.0.154"
