[package]
name = "lemoa"
version = "0.1.0"
edition = "2021"
publish = false

[dependencies]
html2pango = "0.5"
lemmy_api_common = "0.18"
markdown = "0.3"
relm4 = "0.6"
relm4-components = { version = "0.6", features = ["web"] }
reqwest = { version = "0.11", default-features = false, features = ["blocking", "json"] }
