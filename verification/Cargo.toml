[package]
name = "mail_session"
version = "0.1.0"
edition = "2021"
publish = false

[dependencies]
async-imap = "=0.2.0"
async-native-tls = "=0.3.3"
async-smtp = "0.3.4"
async-std = { version = "=1.6.5", features = ["unstable"] }
stop-token = { version = "=0.1.2", features = ["unstable"] }
