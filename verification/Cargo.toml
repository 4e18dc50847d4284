[package]
name = "versioned_binary_serialization"
version = "0.1.0"
edition = "2021"

[dependencies]
serde = "1"
bincode = "1"
