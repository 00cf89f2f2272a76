[package]
name = "source_cache"
version = "0.1.0"
edition = "2021"
publish = false

[dependencies]
directories = "=6.0.0"
git2 = "=0.21.0"
git2_credentials = "=0.16.0"
slog = "=2.8.2"
snafu = "=0.9.2"
structopt = "=0.3.26"

[dev-dependencies]
tempfile = "=3.27.0"
