[package]
name = "duo_firmware"
version = "0.1.0"
edition = "2021"
publish = false

[dependencies]
tock-registers = "0.9"
lazy_static = "1"
linked_list_allocator = "0.10"
