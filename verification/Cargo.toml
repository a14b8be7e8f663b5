[package]
name = "iron_ssg"
version = "0.1.0"
edition = "2021"
publish = false

[dependencies]
chrono = "*"
colored = "*"
dotenv = "*"
handlebars = "*"
json = "*"
serde = { version = "*", features = ["derive"] }
serde_json = "*"
toml = "*"
