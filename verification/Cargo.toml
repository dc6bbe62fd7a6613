[package]
name = "lcd_i2c_backpack"
version = "0.1.0"
edition = "2021"
publish = false

[dependencies]
embedded-hal = "1"
lcd = "*"
