[package]
name = "pixi_core"
version = "0.1.0"
edition = "2021"
publish = false

[dependencies]
dunce = "*"
indexmap = "*"
itertools = "*"
miette = "*"
once_cell = "*"
pep508_rs = "*"
rattler_conda_types = { version = "*", default-features = false }
rattler_virtual_packages = { version = "*", default-features = false }
tracing = "*"
url = "*"
