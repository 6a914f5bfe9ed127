[package]
name = "monitor_server"
version = "0.1.0"
edition = "2021"
publish = false

[dependencies]
hmac = "0.12"
sha2 = "0.10"
hex = "0.4"
itertools = "0.10"
chrono = { version = "0.4", default-features = false, features = ["clock", "std"] }
rand = "0.8"
serde = { version = "1", features = ["derive"] }
serde_json = "1"
actix-web = { version = "4", default-features = false, features = ["macros"] }
futures-util = "0.3"
mysql = { version = "24", default-features = false, features = ["minimal"] }
reqwest = { version = "0.11", default-features = false }
log = "0.4"
log4rs = { version = "1", default-features = false, features = ["console_appender", "file_appender", "config_parsing", "yaml_format"] }
async-trait = "0.1"
