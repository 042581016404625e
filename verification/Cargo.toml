[package]
name = "moss_keystore"
version = "0.1.0"
edition = "2021"
publish = false

[dependencies]
base64 = "=0.13.1"
hex = "=0.4.3"
sha2 = "=0.10.9"
holo_hash = { version = "=0.4.4", features = ["encoding", "hashing"] }
holochain_zome_types = "=0.4.4"
lair_keystore_api = "0.5"
hc_seed_bundle = "0.2"
napi = { version = "2", default-features = false, features = ["napi4", "tokio_rt"] }
napi-derive = "2"
serde_json = "1"
serde_yaml = "0.9"
url2 = "0.0.6"
zip = { version = "0.6", default-features = false, features = ["deflate"] }

[dev-dependencies]
ed25519-dalek = "=2.2.0"
