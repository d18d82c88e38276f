[package]
name = "antimomobot"
version = "0.1.0"
edition = "2021"
publish = false

[dependencies]
anyhow = "=1.0.104"
chrono = "=0.4.45"
color_space = "=0.5.4"
image = "=0.25.10"
log = "=0.4.34"
pretty_env_logger = "=0.5.0"
reqwest = { version = "=0.11.27", default-features = false, features = ["rustls-tls"] }
rust-i18n = "=2.3.1"
# The loader of the translation files, which the bot runs at start.
rust-i18n-support = "=2.3.0"
rusty-tesseract = "=1.1.10"
# teloxide-core pulls in takecell, whose 0.1.2 asks for rustc 1.96: held at 0.1.1.
takecell = "=0.1.1"
teloxide = { version = "=0.12.2", default-features = false, features = ["macros", "rustls", "ctrlc_handler"] }
tokio = { version = "=1.54.1", features = ["rt-multi-thread", "macros", "fs"] }
