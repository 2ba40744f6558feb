[package]
name = "feed_relay"
version = "0.1.0"
edition = "2021"
publish = false

[dependencies]
rss = { version = "=2.1.2", default-features = false }
redis = "=0.21.8"
reqwest = "=0.11.27"
tokio = { version = "=1.54.1", features = ["rt-multi-thread", "macros", "time"] }
teloxide = { version = "=0.7.3", features = ["macros", "auto-send"] }
# teloxide-core 0.4 uses tokio-util's codec module without asking for the feature.
tokio-util = { version = "=0.6.10", features = ["codec"] }
# teloxide-core 0.4 takes any takecell 0.1; 0.1.2 asks for a compiler newer than 1.95.
takecell = "=0.1.1"
serde = { version = "=1.0.229", features = ["derive"] }
serde_json = "=1.0.154"
serde_yaml = "=0.8.26"
log = "=0.4.34"
pretty_env_logger = "=0.4.0"

[dev-dependencies]
# The tests hold the nesting scan against the XML reader that rss reads with.
quick-xml = { version = "=0.41.0", features = ["encoding"] }
