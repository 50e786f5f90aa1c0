[package]
name = "freetrade"
version = "0.1.0"
edition = "2021"
publish = false

[dependencies]
csv = "*"
serde = { version = "*", features = ["derive"] }
time = { version = "*", features = ["formatting", "macros", "parsing", "serde-well-known"] }
