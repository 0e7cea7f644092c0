[package]
name = "pop_theme_switcher"
version = "0.1.0"
edition = "2021"
publish = false

[dependencies]
gio = "=0.8.1"
glib = "=0.9.3"
gtk = "=0.8.1"
json = "=0.12.4"
