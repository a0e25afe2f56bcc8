[package]
name = "blokator"
version = "0.1.0"
edition = "2021"
publish = false

[dependencies]
regex = "1"
clap = { version = "3.2", features = ["derive"] }
colored = "2"
dirs = "4"
nix = { version = "0.26", default-features = false, features = ["user"] }
reqwest = { version = "0.11", default-features = false, features = ["blocking", "socks", "rustls-tls"] }
serde = { version = "1", features = ["derive"] }
signal-hook = "0.3"
spinners = "4"
tokio = { version = "1", features = ["rt-multi-thread", "macros"] }
toml = "0.5"
winapi = { version = "0.3", features = ["processthreadsapi", "securitybaseapi", "handleapi", "winnt"] }
libc = "0.2"
