[package]
name = "tee_attestation_verification_lib"
version = "0.1.0"
edition = "2021"
publish = false

[dependencies]
rsa = { version = "0.9", features = ["sha2"] }
p384 = { version = "0.13", features = ["ecdsa"] }
serde = { version = "1", features = ["derive"] }
log = "0.4"
console_error_panic_hook = "0.1"
wasm-logger = "0.2"

[dev-dependencies]
sev = { version = "*", features = ["crypto_nossl"] }
