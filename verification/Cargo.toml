[package]
name = "veda_logic"
version = "0.1.0"
edition = "2021"
publish = false

[dependencies]
chrono = "=0.4.45"
rand = "=0.7.3"
uuid = { version = "=1.29.0", features = ["v4"] }
log = "=0.4.35"
env_logger = "=0.7.1"
rust-ini = "=0.15.3"
nng = "=0.5.1"
actix = "=0.8.3"
actix-web = "=1.0.9"
actix-web-actors = "=1.0.4"
futures = "=0.1.31"
futures-state-stream = "=0.1.1"
tokio = "=0.1.22"
tiberius = "=0.3.2"
rusty_v8 = "=0.18.2"
xapian-rusty = "=0.0.56"
v_onto = "=0.1.1"
v_queue = "=0.1.11"
lazy_static = "=1.5.1"
