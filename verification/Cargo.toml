[package]
name = "liveserve"
version = "0.1.0"
edition = "2021"
publish = false

[dependencies]
mime_guess = "2"
rustls = "0.21"
rustls-pemfile = "1"
actix = "0.13"
actix-files = "0.6"
actix-web = { version = "4", features = ["rustls-0_21"] }
actix-web-actors = "4"
clap = { version = "4", features = ["derive"] }
notify = "6"
futures-util = "0.3"
