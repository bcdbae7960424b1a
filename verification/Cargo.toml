[package]
name = "knowledge_server"
version = "0.1.0"
edition = "2021"
publish = false

[dependencies]
rusqlite = { version = "=0.40.2", features = ["bundled"] }
r2d2 = "=0.8.10"
r2d2_sqlite = "=0.35.0"
tantivy = { version = "=0.16.1", features = ["snappy-compression"] }
tique = "=0.7.0"
stopwords = "=0.1.1"
pulldown-cmark = "=0.13.4"
yaml-rust = "=0.4.5"
url = "=2.5.8"
dirs = "=7.0.0"
ignore = "=0.4.33"
open = "=5.4.4"
