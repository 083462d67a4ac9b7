[package]
name = "translation_service"
version = "0.1.0"
edition = "2021"
publish = false

[dependencies]
futures = "0.3"
rusoto_core = { version = "0.48", default-features = false, features = ["rustls"] }
rusoto_polly = { version = "0.48", default-features = false, features = ["rustls"] }
rusoto_translate = { version = "0.48", default-features = false, features = ["rustls"] }
