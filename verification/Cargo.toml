[package]
name = "gwm"
version = "0.1.0"
edition = "2021"
publish = false

[dependencies]
anyhow = "*"
chrono = "*"
clap = { version = "*", features = ["derive", "env"] }
clap_complete = "*"
colored = "*"
futures = "*"
git2 = { version = "*", default-features = false }
octocrab = "*"
remove_dir_all = "*"
tabled = "*"
tokio = { version = "*", features = ["rt-multi-thread", "macros"] }

[dev-dependencies]
tempfile = "*"
