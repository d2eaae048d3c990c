[package]
name = "imxrt_async_hal"
version = "0.2.0"
edition = "2021"
publish = false
