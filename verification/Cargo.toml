[package]
name = "block_meta_rpc"
version = "0.1.0"
edition = "2021"
publish = false

[dependencies]
chrono = "0.4"
num_cpus = "1"
mysql = "*"
time = "0.3"
jsonrpc-core = "18"
jsonrpc-derive = "18"
jsonrpc-http-server = "18"
serde = { version = "1", features = ["derive"] }
serde_json = "1"
log = "0.4"
crossbeam-channel = "0.5"
tokio = { version = "1", features = ["rt-multi-thread", "macros", "time"] }
dotenv = "0.15"
envy = "0.4"
clap = "2"
symlink = "0.1"
