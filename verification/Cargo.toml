[package]
name = "tsc_timer"
version = "0.1.0"
edition = "2021"
publish = false

[dependencies]
raw-cpuid = "=11.6.0"
tick_counter = "=0.4.5"
