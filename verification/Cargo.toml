[package]
name = "bottlerocket_ecs_updater"
version = "0.1.0"
edition = "2021"
publish = false

[dependencies]
base64 = "=0.13.1"
rusoto_cloudformation = { version = "=0.46.0", default-features = false, features = ["rustls"] }
rusoto_core = { version = "=0.46.0", default-features = false, features = ["rustls"] }
rusoto_credential = "=0.46.0"
rusoto_ecs = { version = "=0.46.0", default-features = false, features = ["rustls"] }
rusoto_ssm = { version = "=0.46.0", default-features = false, features = ["rustls"] }
serde_json = "=1.0.154"
snafu = "=0.6.10"
structopt = "=0.3.26"
tokio = { version = "=1.54.1", features = ["macros", "rt-multi-thread", "time"] }
