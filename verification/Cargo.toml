[package]
name = "ciphey"
version = "0.1.0"
edition = "2021"
publish = false

[dependencies]
base65536 = "=1.0.1"
base91 = "=0.1.0"
brainfuck-exe = { version = "=0.2.4", default-features = false }
chrono = "=0.4.45"
dashmap = "=6.2.1"
data-encoding = "=2.11.1"
dirs = "=7.0.0"
gibberish-or-not = "=4.1.1"
lemmeknow = { version = "=0.8.0", default-features = false }
log = "=0.4.34"
regex = "=1.13.1"
rusqlite = { version = "=0.41.0", features = ["bundled"] }
serde_json = "=1.0.154"
text_io = "=0.1.13"
uuid = { version = "=1.29.0", features = ["v4"] }
