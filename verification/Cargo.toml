[package]
name = "dual_n_back"
version = "0.1.0"
edition = "2021"
publish = false

[dependencies]
chrono = { version = "0.4", features = ["serde"] }
image = { version = "0.24", default-features = false, features = ["ico"] }
rand = "0.8"
serde = { version = "1", features = ["derive"] }
strum = "0.25"
strum_macros = "0.25"
winit = "0.28"
