[package]
name = "hdfs_log_loader"
version = "0.1.0"
edition = "2021"
publish = false

[dependencies]
serde_json = "*"
serde = { version = "*", features = ["derive"] }
anyhow = "*"
clap = { version = "*", features = ["derive"] }
mysql_async = "*"
tokio = { version = "*", features = ["macros", "rt-multi-thread"] }
