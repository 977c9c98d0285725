[package]
name = "display_window"
version = "0.1.0"
edition = "2021"
publish = false

[dependencies]
agb_fixnum = "*"
