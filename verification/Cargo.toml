[package]
name = "cosmic_greeter"
version = "0.1.0"
edition = "2021"
publish = false

[dependencies]
bytemuck = "1"
pwd = "1"
serde = { version = "1", features = ["derive"] }
tracing = "0.1"
xdg = "3"
