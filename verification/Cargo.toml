[package]
name = "cli_organizer"
version = "0.1.0"
edition = "2021"
publish = false

[dependencies]
dirs = "=5.0.1"
egui = { version = "0.28", default-features = false, features = ["default_fonts"] }
env_logger = "=0.11.11"
log = "=0.4.34"
serde_json = "=1.0.154"
syntect = { version = "=5.3.0", default-features = false, features = ["default-fancy"] }
urlencoding = "=2.1.3"
webbrowser = "=1.2.5"
