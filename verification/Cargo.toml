[package]
name = "ddns_monitor"
version = "0.1.0"
edition = "2021"
publish = false

[dependencies]
chrono = "0.4"
clap = { version = "4", features = ["derive"] }
dialoguer = "0.11"
directories = "5"
dns-lookup = "2"
eyre = "0.6"
gethostname = "0.4"
lettre = "0.11"
mac_address = "1"
magic-crypt = "3"
serde = { version = "1", features = ["derive"] }
serde_json = "1"
