[package]
name = "zkproof-worker"
version = "0.1.0"
edition = "2021"
publish = false

[dependencies]
alloy-primitives = "=1.7.3"
lru = "=0.19.0"
sha3 = "=0.12.0"
sqlx = { version = "=0.9.0", default-features = false, features = ["postgres", "runtime-tokio"] }
tfhe = { version = "=0.11.3", default-features = false, features = ["integer", "zk-pok"] }
tokio = { version = "=1.54.1", features = ["macros", "rt-multi-thread", "sync", "time"] }
tokio-util = "=0.7.20"
tracing = "=0.1.44"
