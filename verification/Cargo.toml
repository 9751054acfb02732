[package]
name = "humanize"
version = "0.1.0"
edition = "2021"
publish = false

[dependencies]
icu_locid = "=1.5.0"
language-tags = "=0.3.2"
