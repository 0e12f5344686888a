[package]
name = "tui_editor"
version = "0.1.0"
edition = "2021"
publish = false

[dependencies]
unicode-segmentation = "1"
syntect = { version = "5", default-features = false, features = ["default-fancy"] }
clap = { version = "4", features = ["derive"] }
crossterm = "0.27"
log = "0.4"
termcolor = "1"
time = { version = "0.3", features = ["macros", "formatting"] }
serde = { version = "1", features = ["derive"] }

[dev-dependencies]
nom = "7"
