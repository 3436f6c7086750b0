[package]
name = "sonibox"
version = "0.1.0"
edition = "2021"
publish = false

[dependencies]
defmt = "*"
defmt-rtt = "*"
dfplayer-async = "*"
embassy-embedded-hal = "*"
embassy-executor = "*"
embassy-futures = "*"
embassy-rp = "*"
embassy-sync = "*"
embassy-time = "*"
mfrc522 = "*"
panic-probe = "*"
static_cell = "*"
