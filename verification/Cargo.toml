[package]
name = "motion_engine"
version = "0.1.0"
edition = "2021"
publish = false

[dependencies]
easer = "=0.3.0"

[dev-dependencies]
dioxus-motion = "=0.4.0"
