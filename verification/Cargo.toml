[package]
name = "tempest_view_intelligence"
version = "0.1.0"
edition = "2021"
publish = false

[dependencies]
tree-sitter = "*"
tree-sitter-php = "*"
tokio = { version = "*", features = ["full"] }
tower-lsp-server = "*"
lsp-types = "*"
dashmap = "*"
clap = { version = "*", features = ["derive"] }
thiserror = "*"
