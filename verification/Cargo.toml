[package]
name = "voicelink"
version = "0.1.0"
edition = "2021"
publish = false

[dependencies]
songbird = { version = "0.3", default-features = false, features = ["driver", "rustls"] }
tokio = { version = "1", features = ["sync", "rt-multi-thread"] }
pyo3 = { version = "0.16", features = ["extension-module"] }
pyo3-asyncio = { version = "0.16", features = ["tokio-runtime"] }
