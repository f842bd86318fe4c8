[package]
name = "brig"
version = "0.1.0"
edition = "2021"
publish = false

[dependencies]
iced-x86 = { version = "1", default-features = false, features = ["std", "code_asm"] }
bitset-core = "0.1"
serde = { version = "1", features = ["derive"] }
thiserror = "2"
displaydoc = "0.2"
