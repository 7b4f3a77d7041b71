[package]
name = "zero2prod"
version = "0.1.0"
edition = "2021"
publish = false

[dependencies]
unicode-segmentation = "*"
validator = "*"
uuid = { version = "*", features = ["v4"] }
chrono = "*"
secrecy = { version = "*", features = ["serde"] }
serde = { version = "*", features = ["derive"] }
config = { version = "*", default-features = false, features = ["yaml"] }
actix-web = { version = "*", default-features = false, features = ["macros"] }
tokio = { version = "*", features = ["net", "rt", "macros"] }
tokio-util = { version = "*", features = ["compat"] }
tracing = "*"
tracing-actix-web = "*"
bb8 = "*"
bb8-tiberius = "*"
tiberius = { version = "*", default-features = false, features = ["tds73", "rustls"] }
anyhow = "*"
async-trait = "*"
once_cell = "*"
