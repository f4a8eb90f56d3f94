[package]
name = "owning_ref"
version = "0.1.0"
edition = "2021"
publish = false
