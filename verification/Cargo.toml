[package]
name = "negotiate_auth"
version = "0.1.0"
edition = "2021"
publish = false

[dependencies]
async-trait = "*"
axum-core = "*"
base64 = "*"
futures-util = "*"
http = "*"
libgssapi = "*"
log = "*"
thiserror = "*"
tower-layer = "*"
tower-service = "*"
