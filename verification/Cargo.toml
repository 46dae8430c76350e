[package]
name = "dsf_client"
version = "0.1.0"
edition = "2021"
publish = false

[dependencies]
dsf-rpc = "=0.2.0"
dsf-core = "=0.2.0"
# Not used directly: dsf-core 0.2.0 compiles only against sodiumoxide 0.2.5
# (later 0.2 releases changed the signature types it relies on), so this
# line holds its version there.
sodiumoxide = { version = "=0.2.5", default-features = false, features = ["std"] }
futures = "=0.3.34"
async-std = "=1.13.2"
futures_codec = { version = "=0.5.0", features = ["json"] }
structopt = "=0.3.26"
anyhow = "=1.0.104"
tokio = { version = "=1.54.1", features = ["macros", "rt-multi-thread"] }
log = "=0.4.35"
simplelog = "=0.12.2"
prettytable-rs = "=0.10.0"
chrono = "=0.4.45"
chrono-humanize = "=0.0.11"
