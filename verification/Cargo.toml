[package]
name = "cbos"
version = "0.1.0"
edition = "2021"
publish = false

[dependencies]
bootloader = { version = "=0.9.35", features = ["map_physical_memory"] }
conquer-once = { version = "=0.4.0", default-features = false }
crossbeam-queue = { version = "=0.3.14", default-features = false, features = ["alloc"] }
futures-util = { version = "=0.3.34", default-features = false, features = ["alloc"] }
lazy_static = "=1.5.1"
linked_list_allocator = { version = "=0.9.1", default-features = false, features = ["use_spin"] }
pc-keyboard = "=0.5.1"
pic8259 = "=0.10.4"
spin = "=0.9.9"
volatile = "=0.2.7"
x86_64 = { version = "=0.14.13", default-features = false, features = ["instructions"] }
