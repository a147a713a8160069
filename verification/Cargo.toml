[package]
name = "neutron_vaults"
version = "0.1.0"
edition = "2021"
publish = false

[dependencies]
cosmwasm-std = "=2.3.6"
cosmwasm-schema = "=2.3.6"
cw2 = "=2.0.0"
cw-ownable = "=2.1.0"
cw-storage-plus = "=2.0.0"
neutron-std = "=8.0.0"
prost = "=0.12.6"
schemars = "=0.8.22"
serde = { version = "=1.0.229", features = ["derive"] }
serde_json = "=1.0.154"
thiserror = "=1.0.69"
