[package]
name = "crossroadsbot"
version = "0.1.0"
edition = "2021"
publish = false

[dependencies]
dashmap = "4"
chrono = "0.4"
serenity = { version = "0.10", features = ["collector"] }
diesel = { version = "1.4", features = ["postgres", "r2d2", "chrono"] }
diesel-derive-enum = { version = "1", features = ["postgres"] }
tokio = { version = "1", features = ["rt-multi-thread", "macros", "signal"] }
dotenv = "0.15"
