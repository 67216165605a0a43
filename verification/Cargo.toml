[package]
name = "segelflug_classifieds"
version = "0.1.0"
edition = "2021"
publish = false

[dependencies]
ammonia = "=4.2.1"
anyhow = "=1.0.104"
atomicwrites = "=0.4.4"
clap = { version = "=4.6.7", features = ["derive", "env"] }
rand = "=0.10.3"
reqwest = "=0.12.28"
rss = "=2.1.2"
scraper = "=0.27.0"
# not used directly: pins teloxide-core's `takecell 0.1` requirement to the
# last patch that builds on this toolchain (0.1.2 needs a newer rustc)
takecell = "=0.1.1"
teloxide = "=0.17.0"
tokio = { version = "=1.53.2", features = ["rt-multi-thread", "macros", "time"] }
tracing = "=0.1.44"
tracing-subscriber = "=0.3.23"
