[package]
name = "dm-database-sqllog2db"
version = "0.1.0"
edition = "2021"
publish = false

[dependencies]
regex = "*"
ahash = "*"
compact_str = "*"
memchr = "*"
itoa = "*"
log = "*"
thiserror = "*"
serde = { version = "*", features = ["derive"] }
dm-database-parser-sqllog = "*"
dm-database-driver-log = "*"
glob = "*"
indicatif = "*"
rayon = "*"
tokio = { version = "*", features = ["rt-multi-thread", "macros"] }
rusqlite = { version = "*", features = ["bundled"] }
parquet = { version = "*", default-features = false, features = ["arrow", "zstd", "snap"] }
arrow-array = "*"
arrow-schema = "*"

[dev-dependencies]
tempfile = "*"
