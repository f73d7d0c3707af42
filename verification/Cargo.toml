[package]
name = "date_time_parser_multi_language"
version = "0.1.0"
edition = "2021"
publish = false

[dependencies]
chrono = "*"
log = "*"
simple_logger = "*"
