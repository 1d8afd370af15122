[package]
name = "stylus_contracts"
version = "0.1.0"
edition = "2021"
publish = false

[dependencies]
stylus-sdk = "=0.6.1"
# The host word of stylus-sdk is ruint's `Uint<256, 4>`. stylus-sdk 0.6.1 does
# not compile against later ruint releases, which turned the size check of
# `to_be_bytes` into a compile-time assertion, so ruint is held to the release
# that stylus-sdk 0.6.1 was written for. Nothing here names it by path.
ruint = { version = "=1.12.3", default-features = false }
