[package]
name = "beacon_rewards"
version = "0.1.0"
edition = "2021"
publish = false

[dependencies]
safe_arith = "0.1.0"
slog = "2"
warp = "0.3"
