[package]
name = "arbiscan"
version = "0.1.0"
edition = "2021"
publish = false

[dependencies]
hex = "=0.4.3"
bincode = "=2.0.1"
iceoryx2 = "=0.5.0"
iceoryx2-bb-container = "=0.5.0"
ethers = { version = "2", default-features = false, features = ["ws", "abigen"] }
serde = { version = "1", features = ["derive"] }
serde_json = "1"
tokio = { version = "1", features = ["rt-multi-thread", "macros", "time"] }
futures = "0.3"
futures-util = "0.3"
memmap2 = "0.9"
dotenv = "0.15"
chrono = "0.4"
lazy_static = "1"
