[package]
name = "s1ap_fuzz"
version = "0.1.0"
edition = "2021"
publish = false

[dependencies]
arbitrary = "*"
asn1-codecs = "*"
