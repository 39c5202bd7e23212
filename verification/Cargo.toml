[package]
name = "george_template"
version = "0.1.0"
edition = "2021"
publish = false

[dependencies]
chrono = "0.4"
thiserror = "2"
tracing = "0.1"
tracing-appender = "0.2"
tracing-subscriber = "0.3"
