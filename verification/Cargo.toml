[package]
name = "input_mux"
version = "0.1.0"
edition = "2021"
publish = false

[dependencies]
crossterm = "*"
flume = "*"
parking_lot = "*"
