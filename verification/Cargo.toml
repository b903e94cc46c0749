[package]
name = "time_cli"
version = "0.1.0"
edition = "2021"
publish = false

[dependencies]
anyhow = "1"
chrono = "0.4"
clap = { version = "4", features = ["derive"] }
comfy-table = "7"
indicatif = "0.17"
once_cell = "1"
owo-colors = "4"
reqwest = { version = "0.12", features = ["json"] }
serde = { version = "1", features = ["derive"] }
textwrap = { version = "0.16", features = ["terminal_size"] }
tokio = { version = "1", features = ["macros", "rt"] }
