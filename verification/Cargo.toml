[package]
name = "fileserv"
version = "0.1.0"
edition = "2021"
publish = false

[dependencies]
axum = "=0.7.9"
http = "1"
leptos = { version = "=0.6.15", features = ["ssr"] }
leptos_axum = "=0.6.15"
tower = { version = "=0.4.13", features = ["util"] }
tower-http = { version = "0.5", features = ["fs"] }
