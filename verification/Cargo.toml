[package]
name = "logicapps_lint"
version = "0.1.0"
edition = "2021"
publish = false

[dependencies]
annotate-snippets = "*"
clap = { version = "4", features = ["derive"] }
json-spanned-value = "*"
serde = { version = "1", features = ["derive"] }
serde_json = "1"
thiserror = "*"
