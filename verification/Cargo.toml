[package]
name = "leptos_axum"
version = "0.1.0"
edition = "2021"
publish = false

[dependencies]
axum = "=0.6.20"
config = { version = "=0.13.4", default-features = false, features = ["toml"] }
futures = "=0.3.34"
http = "=0.2.12"
hyper = "=0.14.32"
leptos = { version = "=0.2.5", default-features = false, features = ["ssr", "stable", "serde"] }
leptos_meta = { version = "=0.2.5", default-features = false, features = ["ssr", "stable"] }
leptos_router = { version = "=0.2.5", default-features = false, features = ["ssr", "stable"] }
proc-macro2 = "=1.0.107"
regex = "=1.13.1"
serde = { version = "=1.0.229", features = ["derive"] }
syn-rsx = "=0.9.0"
thiserror = "=1.0.69"
tokio = { version = "=1.54.1", features = ["full"] }
typed-builder = "=0.11.0"
