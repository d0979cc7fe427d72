[package]
name = "runesys"
version = "0.1.0"
edition = "2021"
publish = false

[dependencies]
uuid = { version = "*", features = ["v5"] }
tonic = "*"
tonic-health = "*"
tonic-reflection = "*"
tokio = { version = "*", features = ["macros", "rt-multi-thread", "time", "net"] }
axum = "*"
futures = "*"
tower = { version = "*", features = ["util"] }
tower-http = { version = "*", features = ["trace", "add-extension"] }
tracing = "*"
tracing-subscriber = { version = "*", features = ["env-filter", "fmt"] }
figment = { version = "*", features = ["env"] }
serde = { version = "*", features = ["derive"] }
url = "*"
sqlx = { version = "*", default-features = false, features = ["postgres", "runtime-tokio"] }
prost = "*"
prost-types = "*"
thiserror = "*"
