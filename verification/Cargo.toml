[package]
name = "metro_swc_transformer"
version = "0.1.0"
edition = "2021"
publish = false

[dependencies]
swc = "*"
swc_config = "*"
swc_ecma_parser = "*"
swc_ecma_transforms_react = "*"
swc_ecma_utils = "*"
