[package]
name = "site_sync"
version = "0.1.0"
edition = "2021"
publish = false

[dependencies]
json = "=0.12.4"
comrak = { version = "=0.57.0", default-features = false }
git2 = { version = "=0.21.0", features = ["ssh"] }
chrono = "=0.4.45"
failure = "=0.1.8"
http = "=0.2.12"
hyper = "=0.14.32"
tokio = { version = "=1.54.1", features = ["macros", "rt-multi-thread"] }
warp = { version = "=0.3.7", default-features = false }
rocket = { version = "=0.5.2", default-features = false }
