[package]
name = "arcs-deploy"
version = "0.1.0"
edition = "2021"
publish = false

[dependencies]
serde = { version = "1", features = ["derive"] }
serde_json = "1"
serde_yaml = "0.9"
regex = "1"
chashmap = "2"
base64 = "0.21"
yaml-rust2 = "*"
hashlink = "*"
marked-yaml = "*"
uuid = { version = "1", features = ["v4"] }
log = "0.4"
chrono = "0.4"
dotenv = "0.15"
lazy_static = "1"
constant_time_eq = "0.3"
futures = "0.3"
tokio = { version = "1", features = ["rt-multi-thread", "macros", "fs"] }
actix-web = { version = "4", default-features = false, features = ["macros"] }
actix-web-httpauth = "0.8"
reqwest = { version = "0.11", default-features = false, features = ["json", "rustls-tls"] }
shiplift = { version = "0.7", default-features = false, features = ["unix-socket", "chrono"] }
kube = { version = "0.87", default-features = false, features = ["client", "rustls-tls"] }
k8s-openapi = { version = "0.20", features = ["v1_28"] }
rust-s3 = { version = "0.33", default-features = false, features = ["tokio-rustls-tls"] }
