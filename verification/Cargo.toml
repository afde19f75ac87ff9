[package]
name = "ddb_pipewire"
version = "0.1.0"
edition = "2021"
publish = false

[dependencies]
libspa-sys = "=0.8.0"
once_cell = "=1.21.4"
pipewire = { version = "=0.8.0", features = ["v0_3_49"] }
thiserror = "=1.0.69"
