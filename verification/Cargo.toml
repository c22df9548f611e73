[package]
name = "rak"
version = "0.1.0"
edition = "2021"
publish = false

[dependencies]
getrandom = "=0.4.3"
bit_field = "=0.10.3"
x86_64 = { version = "=0.15.5", default-features = false, features = ["instructions"] }
uart_16550 = "=0.8.1"
spin = "=0.12.3"
lazy_static = "=1.5.1"
volatile = "=0.6.1"
bitflags = "=2.13.2"
