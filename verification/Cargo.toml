[package]
name = "pgnotes"
version = "0.1.0"
edition = "2021"
publish = false

[dependencies]
postgres = "0.19"
dotenv = "0.15"
structopt = "0.3"
