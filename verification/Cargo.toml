[package]
name = "signals"
version = "0.1.0"
edition = "2021"
publish = false

[dependencies]
futures = "=0.1.31"
stdweb = { version = "=0.4.4", features = ["experimental_features_which_may_break_on_minor_version_bumps"] }
