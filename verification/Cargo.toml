[package]
name = "workspace_settings"
version = "0.1.0"
edition = "2021"
publish = false

[dependencies]
i18n-embed = { version = "*", features = ["fluent-system", "filesystem-assets", "desktop-requester"] }
slab = "=0.4.12"
slotmap = "=1.1.1"
tracing = "=0.1.44"
