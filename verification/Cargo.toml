[package]
name = "gql_core"
version = "0.1.0"
edition = "2021"
publish = false

[dependencies]
bluejay-core = "=0.4.0"
bluejay-parser = "=0.4.0"
bluejay-validator = "=0.4.0"
