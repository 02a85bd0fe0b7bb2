[package]
name = "mysqldesk"
version = "0.1.0"
edition = "2021"
publish = false

[dependencies]
which = "*"
dirs = "*"
open = "*"
serde = { version = "1", features = ["derive"] }
serde_json = "1"
tracing = "0.1"
tracing-subscriber = { version = "0.3", features = ["env-filter", "fmt"] }
async-channel = "2"
gtk4 = "*"
libadwaita = "*"
glib = "*"
