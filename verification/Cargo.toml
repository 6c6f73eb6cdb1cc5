[package]
name = "mcmc_demo"
version = "0.1.0"
edition = "2021"
publish = false

[dependencies]
rand = "=0.8.8"
rand_distr = "=0.4.3"
rand_pcg = "=0.3.1"
rand_xoshiro = "=0.6.0"
rand_xorshift = "=0.3.0"
tokio = { version = "=1.54.1", features = ["sync", "rt", "rt-multi-thread", "macros", "time"] }
futures = "=0.3.34"
nalgebra = "=0.33.3"
egui = "0.29"
