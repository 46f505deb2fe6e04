[package]
name = "st7789v_driver"
version = "0.1.0"
edition = "2021"
publish = false

[dependencies]
display-interface = "0.5"
embedded-graphics = "0.8"
embedded-hal = "1.0"
