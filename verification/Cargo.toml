[package]
name = "list_file_cgi"
version = "0.1.0"
edition = "2021"
publish = false

[dependencies]
serde_json = "1"
gfcgi = "*"
log = "*"
pretty_env_logger = "*"
