[package]
name = "tui_aws"
version = "0.1.0"
edition = "2021"
publish = false

[dependencies]
async-trait = "0.1"
aws-config = { version = "1", default-features = false, features = ["behavior-version-latest", "rt-tokio"] }
aws-sdk-glue = { version = "1", default-features = false, features = ["behavior-version-latest", "rt-tokio"] }
aws-sdk-s3 = { version = "1", default-features = false, features = ["behavior-version-latest", "rt-tokio"] }
aws-smithy-types = "1"
bytesize = "1"
copypasta-ext = "*"
crossterm = "0.25"
eyre = "0.6"
futures = "0.3"
futures-util = "0.3"
structopt = "0.3"
tokio = { version = "1", features = ["macros", "rt-multi-thread", "sync"] }
tui = "0.19"
