[package]
name = "colony_engine"
version = "0.1.0"
edition = "2021"
publish = false

[dependencies]
chrono = "0.4"
crossterm = "0.25"
itertools = "0.10"
tui = "0.19"
worldgen = "*"
