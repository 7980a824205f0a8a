[package]
name = "edc_ui"
version = "0.1.0"
edition = "2021"
publish = false

[dependencies]
semver = "=1.0.28"
cel = "=0.15.0"
serde = { version = "=1.0.229", features = ["derive"] }
serde_json = "=1.0.154"
serde_with = "=3.24.0"
chrono = { version = "=0.4.45", features = ["serde"] }
strum = { version = "=0.27.2", features = ["derive"] }
uuid = { version = "=1.29.0", features = ["v4", "js"] }
log = "=0.4.35"
reqwest = { version = "=0.13.5", features = ["json"] }
web-sys = { version = "=0.3.107", features = ["Window", "Location"] }
yew = "=0.23.0"
patternfly-yew = "=0.8.5"
yew_icons = { version = "=0.10.1", features = ["lucide"] }
yew-oauth2 = "=0.14.0"
stylist = { version = "=0.15.1", features = ["yew_integration"] }
edc-connector-client-next = { version = "=0.6.14", features = ["contract-negotiation-review"] }
edc-federated-catalog-client = { version = "=0.2.7", features = ["management"] }
edc-identity-hub-client = "=0.2.4"
