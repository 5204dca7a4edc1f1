[package]
name = "slygen"
version = "0.1.0"
edition = "2021"
publish = false

[dependencies]
syn = { version = "=2.0.119", features = ["full"] }
prettyplease = { version = "=0.2.37", features = ["verbatim"] }
clap = { version = "4", features = ["derive"] }
serde = { version = "1", features = ["derive"] }
serde_json = "1"
tokio = { version = "1", features = ["rt-multi-thread", "macros"] }
reqwest = { version = "*", default-features = false }
handlebars = "*"
crossterm = "*"
chrono = "*"
exitcode = "*"
