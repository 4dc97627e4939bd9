[package]
name = "tui_chan"
version = "0.1.0"
edition = "2021"
publish = false

[dependencies]
chrono = { version = "0.4", default-features = false, features = ["std"] }
clipboard = "0.5"
htmlescape = "0.3"
open = "*"
reqwest = { version = "0.11", features = ["json"] }
serde = { version = "1", features = ["derive"] }
termion = "1.5"
tokio = { version = "1", features = ["rt-multi-thread"] }
tui = { version = "0.19", default-features = false, features = ["termion"] }
voca_rs = "*"
