[package]
name = "gallery_viewer"
version = "0.1.0"
edition = "2021"
publish = false

[dependencies]
dropbox-sdk = { version = "=0.18.1", default-features = false, features = ["default_client", "dbx_files"] }
