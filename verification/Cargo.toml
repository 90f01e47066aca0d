[package]
name = "term_rain"
version = "0.1.0"
edition = "2021"
publish = false

[dependencies]
rand = "0.8"
crossterm = "0.27"
ctrlc = "3"
anyhow = "1"
rodio = "0.17"
