[package]
name = "openapi_decl"
version = "0.1.0"
edition = "2021"
publish = false

[dependencies]
convert_case = "*"
log = "*"
serde_yaml_ng = "*"
utoipa = "*"
