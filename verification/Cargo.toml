[package]
name = "email_auth"
version = "0.1.0"
edition = "2021"
publish = false

[dependencies]
mailparse = "=0.13.8"
cfdkim = "=0.1.5"
slog = "=2.8.2"
getrandom = "=0.2.17"
futures = "=0.3.34"
