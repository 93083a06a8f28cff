[package]
name = "solplace"
version = "0.1.0"
edition = "2021"
publish = false

[dependencies]
anchor-lang = "=0.32.2"
bytemuck = { version = "=1.25.2", features = ["derive", "min_const_generics"] }
ephemeral-rollups-sdk = { version = "=0.17.3", features = ["anchor-compat"] }

[dev-dependencies]
sha2 = "=0.10.9"
