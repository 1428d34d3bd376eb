[package]
name = "revm_contract"
version = "0.1.0"
edition = "2021"
publish = false

[dependencies]
# The three members of the `alloy` facade that the program uses. They are
# named one by one to keep the dependency tree small: the facade brings its
# other members with it.
alloy-eips = "=0.3.6"
alloy-provider = { version = "=0.3.6", default-features = false, features = ["reqwest"] }
alloy-sol-types = "=0.8.26"
heck = "=0.5.0"
proc-macro2 = { version = "=1.0.107", features = ["span-locations"] }
quote = "=1.0.47"
revm = { version = "=14.0.3", default-features = false, features = ["std", "alloydb"] }
syn = { version = "=2.0.119", features = ["full"] }
tokio = { version = "=1.54.1", features = ["rt-multi-thread"] }
