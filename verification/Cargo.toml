[package]
name = "status_bar"
version = "0.1.0"
edition = "2021"
publish = false

[dependencies]
gtk4 = { version = "0.8", features = ["v4_12"] }
gtk4-layer-shell = "0.3"
hyprland = "0.3"
material-colors = { version = "*", features = ["image"] }
relm4 = "0.8"
sysinfo = "0.30"
tokio = { version = "1", features = ["macros", "rt", "time"] }
tokio-stream = "0.1"
zbus = { version = "4", default-features = false, features = ["tokio"] }
