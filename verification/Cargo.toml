[package]
name = "emp_tunnel"
version = "0.1.0"
edition = "2021"
publish = false

[dependencies]
boringtun = "0.3"
once_cell = "*"
