[package]
name = "podcore"
version = "0.1.0"
edition = "2021"
publish = false

[dependencies]
actix = "*"
actix-web = "*"
bytes = "*"
chrono = "*"
diesel = { version = "*", features = ["postgres", "r2d2", "chrono"] }
futures = "*"
horrorshow = "*"
hyper = "*"
juniper = "*"
r2d2 = "*"
serde_json = "*"
slog = "*"
