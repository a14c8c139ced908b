[package]
name = "coalesce"
version = "0.1.0"
edition = "2021"
publish = false

[dependencies]
regex = "*"
tree-sitter = "*"
tree-sitter-cpp = "*"
tree-sitter-c-sharp = "*"
tree-sitter-go = "*"
tree-sitter-javascript = "*"
tree-sitter-rust = "*"
serde = { version = "*", features = ["derive"] }
serde_json = "*"
serde_yaml = "*"
clap = "*"
