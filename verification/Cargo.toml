[package]
name = "mysql_common"
version = "0.1.0"
edition = "2021"
publish = false

[dependencies]
chrono = { version = "0.4", default-features = false }
lexical = "2"
smallvec = "1"
time = "0.1"
uuid = "1"

[dev-dependencies]
regex = "1"
