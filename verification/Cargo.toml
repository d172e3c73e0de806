[package]
name = "xmz_gui"
version = "0.1.0"
edition = "2021"
publish = false

[dependencies]
url = "2"
serde_json = "1"
serde = { version = "1", features = ["derive"] }
reqwest = { version = "0.12", default-features = false, features = ["blocking", "json"] }
config = "0.14"
gtk = "0.18"
gdk = "0.18"
gio = "0.18"
glib = "0.18"
