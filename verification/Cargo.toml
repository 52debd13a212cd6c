[package]
name = "olx_scrape"
version = "0.1.0"
edition = "2021"

[dependencies]
scraper = "*"
reqwest = { version = "*", default-features = false, features = ["blocking"] }
