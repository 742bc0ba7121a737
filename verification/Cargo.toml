[package]
name = "ion_schema"
version = "0.1.0"
edition = "2021"
publish = false

[dependencies]
bigdecimal = "*"
num-bigint = "*"
ion-rs = "0.18"
