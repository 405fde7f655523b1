[package]
name = "chicken_invaders"
version = "0.1.0"
edition = "2021"
publish = false

[dependencies]
pc-keyboard = "=0.9.0"
pluggable_interrupt_os = "=0.4.3"
spin = "=0.12.3"
lazy_static = "=1.5.1"
crossbeam = "=0.8.5"
