[package]
name = "movie_catalog"
version = "0.1.0"
edition = "2021"
publish = false

[dependencies]
cassandra-cpp = "*"
csv = "1"
rustls = "0.21"
rustls-pemfile = "1"
serde = { version = "1", features = ["derive"] }
tokio = { version = "1", features = ["macros", "rt-multi-thread"] }
