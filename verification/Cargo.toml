[package]
name = "sampler_pipeline"
version = "0.1.0"
edition = "2021"
publish = false

[dependencies]
llama-cpp-2 = "*"
thiserror = "*"
