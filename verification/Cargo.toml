[package]
name = "conn_lifecycle"
version = "0.1.0"
edition = "2021"
publish = false

[dependencies]
deadpool = "*"
diesel = "*"
diesel-async = "*"
thiserror = "*"
