[package]
name = "s3-proxy-rs"
version = "0.1.0"
edition = "2021"
publish = false

[dependencies]
aws-config = { version = "=1.12.0", features = ["behavior-version-latest"] }
aws-sdk-s3 = "=1.152.0"
# Not called directly: aws-config 1.12 does not compile against aws-types 1.7,
# which is what would be selected without this line.
aws-types = "=1.6.0"
axum = "=0.8.9"
dotenv = "=0.15.0"
mime_guess = "=2.0.5"
path-clean = "=1.0.1"
thiserror = "=1.0.69"
tokio = { version = "=1.54.1", features = ["macros", "rt-multi-thread", "net"] }
