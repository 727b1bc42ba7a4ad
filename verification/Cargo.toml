[package]
name = "pendulums"
version = "0.1.0"
edition = "2021"
publish = false

[dependencies]
chrono = { version = "0.4", features = ["serde"] }
clap = { version = "4", features = ["derive"] }
colored = "*"
dirs = "*"
inquire = "*"
regex = "1"
reqwest = { version = "*", default-features = false, features = ["json", "cookies"] }
reqwest_cookie_store = "*"
rpassword = "*"
serde = { version = "1", features = ["derive"] }
serde_json = "1"
spinners = "*"
tokio = { version = "1", features = ["macros", "rt-multi-thread"] }
