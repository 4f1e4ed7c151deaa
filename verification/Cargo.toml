[package]
name = "game_clock"
version = "0.1.0"
edition = "2021"
publish = false

[dependencies]
clap = { version = "4", features = ["derive"] }
coarsetime = "0.1"
confy = "0.5"
crossbeam-channel = "0.5"
directories = "5"
glium = { version = "0.32", default-features = false }
log = "0.4"
log-panics = "2"
log4rs = "1"
macroquad = { version = "0.3", default-features = false }
serde = { version = "1", features = ["derive"] }
serde_json = "1"
tokio = { version = "1", features = ["macros", "rt", "sync", "time"] }
