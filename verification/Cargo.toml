[package]
name = "mpris2_zbus"
version = "0.1.0"
edition = "2021"
publish = false

[dependencies]
zbus = "*"
zvariant = "*"
time = "*"
serde = { version = "*", features = ["derive"] }
thiserror = "*"
