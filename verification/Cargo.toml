[package]
name = "ormx"
version = "0.1.0"
edition = "2021"
publish = false

[dependencies]
itertools = "=0.10.5"
syn = { version = "=1.0.109", features = ["full"] }
quote = "=1.0.47"
proc-macro2 = "=1.0.107"
proc-macro-error = "=1.0.4"
futures = "=0.3.34"
async-trait = "=0.1.64"
sqlx = { version = "=0.5.13", default-features = false, features = ["mysql", "any", "macros", "runtime-tokio-rustls"] }
