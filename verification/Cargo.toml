[package]
name = "iris-ls"
version = "0.1.0"
edition = "2021"
publish = false

[dependencies]
async-trait = "*"
bytes = "*"
fern = "*"
futures = "*"
log = "*"
lsp-types = "*"
once_cell = "*"
serde = { version = "*", features = ["derive"] }
serde_json = "*"
structopt = "*"
tokio = { version = "*", features = ["rt-multi-thread", "macros", "io-std", "io-util"] }
tokio-util = { version = "*", features = ["codec"] }
