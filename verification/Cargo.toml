[package]
name = "slug_intl"
version = "0.1.0"
edition = "2021"
publish = false

[dependencies]
finl_unicode = "1.2"
unicode-normalization = "0.1"
