[package]
name = "gaussian_curve_fit"
version = "0.1.0"
edition = "2021"
publish = false

[dependencies]
nalgebra = "=0.35.0"
thiserror = "=2.0.21"
rustc_apfloat = "*"
