[package]
name = "bnetswitchlite"
version = "1.0.0"
edition = "2021"
publish = false

[dependencies]
atomicwrites = "0.4"
libc = "0.2"
plist = "1"
rusqlite = { version = "0.32", features = ["backup", "bundled"] }
serde = { version = "1", features = ["derive"] }
serde_json = "1"
sha2 = "0.10"
thiserror = "2"
uuid = { version = "1", features = ["v4"] }
