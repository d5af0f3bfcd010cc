[package]
name = "mibpf_vm"
version = "0.1.0"
edition = "2021"
publish = false

[dependencies]
goblin = "*"
rbpf = "*"
coap-handler = "*"
coap-message = "*"
coap-numbers = "*"
