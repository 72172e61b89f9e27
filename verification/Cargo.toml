[package]
name = "auth_flow"
version = "0.1.0"
edition = "2021"
publish = false

[dependencies]
dotenv = "=0.15.0"
oauth2 = "=4.4.2"
rand = "=0.8.8"
redis = "=1.8.0"
rocket = "=0.5.2"
serde_json = "=1.0.154"
