[package]
name = "crpipeline"
version = "0.1.0"
edition = "2021"
publish = false

[dependencies]
regex = "1"
dashmap = "5"
sanitize-filename = "0.5"
lopdf = { version = "0.31", default-features = false, features = ["nom_parser"] }
jsonpath-rust = "1"
serde_json = "1"
prometheus = { version = "0.13", default-features = false }
argon2 = "0.5"
serde = { version = "1", features = ["derive"] }
actix-web = "4"
actix-multipart = "0.6"
aws-sdk-s3 = { version = "1", default-features = false, features = ["rt-tokio", "behavior-version-latest"] }
sqlx = { version = "0.7", default-features = false, features = ["runtime-tokio", "postgres", "uuid", "chrono", "json", "macros"] }
redis = { version = "0.23", features = ["tokio-comp"] }
reqwest = { version = "0.11", default-features = false, features = ["json", "multipart", "rustls-tls"] }
jsonwebtoken = { version = "9", default-features = false }
tokio = { version = "1", features = ["full"] }
uuid = { version = "1", features = ["v4", "serde"] }
chrono = { version = "0.4", features = ["serde"] }
printpdf = { version = "0.7", default-features = false }
pulldown-cmark = { version = "0.9", default-features = false }
anyhow = "1"
futures-util = "0.3"
tracing = "0.1"
tracing-subscriber = { version = "0.3", default-features = false, features = ["fmt", "std"] }
