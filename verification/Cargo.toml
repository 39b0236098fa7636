[package]
name = "reget"
version = "0.1.0"
edition = "2021"

[dependencies]
scraper = "*"
serde_json = "1"
