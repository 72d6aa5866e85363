[package]
name = "parol_runtime"
version = "0.1.0"
edition = "2021"
publish = false

[dependencies]
id_tree = "1.8"
miette = "5"
