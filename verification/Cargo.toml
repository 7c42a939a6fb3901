[package]
name = "minecraft_operator"
version = "0.1.0"
edition = "2021"
publish = false

[dependencies]
anyhow = "1"
k8s-openapi = { version = "=0.14.0", features = ["v1_21"] }
kube = { version = "=0.68.0", features = ["derive"] }
kube-derive = "=0.68.0"
log = "0.4"
openshift-openapi = { version = "=0.3.1", features = ["v4_5"] }
serde = { version = "1", features = ["derive"] }
serde_json = "1"

[dev-dependencies]
operator-framework = "=0.6.2"
