[package]
name = "discrakt"
version = "0.1.0"
edition = "2021"
publish = false

[dependencies]
chrono = "0.4"
discord-rich-presence = "0.2"
serde = { version = "1", features = ["derive"] }
ureq = { version = "2", features = ["json"] }
winapi = { version = "0.3", features = ["wincon", "winuser"] }
