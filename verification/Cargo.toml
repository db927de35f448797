[package]
name = "linguaguessr"
version = "0.1.0"
edition = "2021"
publish = false

[dependencies]
serde = { version = "=1.0.229", features = ["derive"] }
serde_json = "=1.0.154"
toml = "=0.8.23"
uuid = { version = "=1.29.1", features = ["v4", "serde"] }
rand = "=0.8.8"
rand_chacha = "=0.3.1"
axum = "=0.7.9"
tokio = { version = "=1.54.1", features = ["full"] }
tower-http = { version = "=0.5.2", features = ["cors"] }
reqwest = { version = "=0.12.28", default-features = false, features = ["json"] }
async-trait = "=0.1.92"
futures = "=0.3.34"
leptos = { version = "=0.7.8", features = ["csr"] }
gloo-net = { version = "=0.6.0", default-features = false, features = ["http", "json"] }
js-sys = "=0.3.107"
wasm-bindgen = "=0.2.130"
wasm-bindgen-futures = "=0.4.80"
web-sys = { version = "=0.3.107", features = ["Window", "Location", "Navigator", "Clipboard", "Storage"] }
