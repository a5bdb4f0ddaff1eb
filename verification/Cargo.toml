[package]
name = "search_bench"
version = "0.1.0"
edition = "2021"
publish = false

[dependencies]
tantivy = "=0.21.1"
# Not called by this crate: holds tantivy's transitive zstd-sys at a release
# that zstd-safe 6.0.6 compiles against.
zstd-sys = "=2.0.8"
actix-web = { version = "4", default-features = false, features = ["macros"] }
csv = "1"
env_logger = "0.11"
log = "0.4"
serde = { version = "1", features = ["derive"] }
sqlx = { version = "0.7", default-features = false, features = ["sqlite", "runtime-tokio", "macros"] }
tokio = { version = "1", features = ["macros", "rt-multi-thread", "sync"] }
