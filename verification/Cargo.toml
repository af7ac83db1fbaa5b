[package]
name = "sqlformat"
version = "0.1.0"
edition = "2021"
publish = false

[dependencies]
unicode_categories = "=0.1.1"
