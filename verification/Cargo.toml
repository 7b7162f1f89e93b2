[package]
name = "dynamic_tp_jvmti"
version = "0.1.0"
edition = "2021"
publish = false

[dependencies]
jvm-rs = "*"
once_cell = "1"
