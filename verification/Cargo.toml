[package]
name = "vga"
version = "0.1.0"
edition = "2021"
publish = false

[dependencies]
font8x8 = "=0.3.1"
x86_64 = { version = "=0.15.5", default-features = false, features = ["instructions"] }
spinning_top = "=0.3.0"
conquer-once = { version = "=0.4.0", default-features = false }
uart_16550 = "=0.8.1"
