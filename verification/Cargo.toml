[package]
name = "solar_frontend"
version = "0.1.0"
edition = "2021"
publish = false

[dependencies]
serde = { version = "=1.0.229", features = ["derive"] }
serde_json = "=1.0.154"
tokio = { version = "=1.54.1", features = ["rt-multi-thread", "macros", "sync", "time"] }
rumqttc = "=0.23.0"
sqlx = { version = "=0.7.4", default-features = false, features = ["mysql", "runtime-tokio"] }
axum = { version = "=0.6.20", features = ["ws", "macros"] }
leptos = { version = "=0.5.7", features = ["ssr"] }
leptos_axum = "=0.5.7"
leptos_meta = { version = "=0.5.7", features = ["ssr"] }
leptos_router = { version = "=0.5.7", features = ["ssr"] }
leptos_server_signal = { version = "=0.5.2", features = ["ssr", "axum"] }
dotenv = "=0.15.0"
simple_logger = "=4.3.3"
log = "=0.4.35"
cfg-if = "=1.0.5"
thiserror = "=1.0.69"
tower = "=0.4.13"
tower-http = { version = "0.4", features = ["fs"] }
