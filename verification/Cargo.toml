[package]
name = "follow_redirect"
version = "0.1.0"
edition = "2021"
publish = false

[dependencies]
futures-core = "=0.3.34"
futures-util = "=0.3.34"
http = "=0.2.12"
http-body = "=0.4.6"
iri-string = "0.7"
pin-project = "=1.1.13"
tower = { version = "=0.4.13", features = ["util"] }
tower-layer = "=0.3.3"
tower-service = "=0.3.3"
