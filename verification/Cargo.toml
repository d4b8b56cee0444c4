[package]
name = "plonk_verifier_codegen"
version = "0.1.0"
edition = "2021"
publish = false

[dependencies]
hex = "=0.4.3"
zksync_bellman = "=0.32.11"
ethabi = "=18.0.0"
handlebars = "=6.4.4"
serde = "=1.0.229"
serde_json = "=1.0.151"
