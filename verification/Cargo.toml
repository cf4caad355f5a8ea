[package]
name = "logtail"
version = "0.1.0"
edition = "2021"
publish = false

[dependencies]
tokio = { version = "1", features = ["full"] }
futures = "0.3"
linemux = "*"
structopt = "0.3"
tui = "0.19"
crossterm = "0.25"
