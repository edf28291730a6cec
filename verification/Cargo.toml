[package]
name = "auth0_flow"
version = "0.1.0"
edition = "2021"
publish = false

[dependencies]
jsonwebtoken = "9"
base64 = "0.22"
rand = "0.8"
sha2 = "0.10"
urlencoding = "2"
axum = "0.7"
axum-extra = { version = "0.9", features = ["cookie"] }
http = "1"
tower = "0.4"
tokio = { version = "1", features = ["macros", "rt-multi-thread", "net"] }
reqwest = { version = "0.12", default-features = false, features = ["json", "rustls-tls"] }
clap = { version = "4", features = ["derive"] }
serde = { version = "1", features = ["derive"] }
serde_json = "1"
tracing = "0.1"
tracing-subscriber = { version = "0.3", features = ["env-filter"] }
log = "0.4"
yew = { version = "0.21", features = ["csr"] }
yew-router = "0.18"
web-sys = { version = "0.3", features = ["Window", "Document", "HtmlDocument", "Location", "Url", "UrlSearchParams"] }
wasm-bindgen = "0.2"
wasm-bindgen-futures = "0.4"
gloo-net = "0.6"
wasm-logger = "0.2"
