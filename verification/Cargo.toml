[package]
name = "ktest"
version = "0.1.0"
edition = "2021"
publish = false

[dependencies]
bootloader_api = "=0.11.17"
conquer-once = "=0.4.0"
linked_list_allocator = "=0.10.6"
spin = "=0.12.3"
uart_16550 = "=0.8.1"
x86_64 = "=0.14.13"
