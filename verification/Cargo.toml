[package]
name = "ani"
version = "0.1.0"
edition = "2021"
publish = false

[dependencies]
regex = "=1.13.1"
scraper = "=0.29.0"
textwrap = "=0.16.4"
clap = { version = "=4.6.7", features = ["derive"] }
clap_complete = "=4.6.11"
crossterm = "=0.29.0"
futures = "=0.3.34"
image = { version = "=0.25.10", default-features = false, features = ["jpeg", "png"] }
viuer = "=0.11.0"
reqwest = { version = "=0.12.28", default-features = false, features = ["json", "rustls-tls"] }
tokio = { version = "=1.54.1", features = ["macros", "rt-multi-thread"] }
graphql_client = { version = "=0.16.0", default-features = false }
serde = { version = "=1.0.229", features = ["derive"] }
