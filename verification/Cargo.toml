[package]
name = "gobject"
version = "0.1.0"
edition = "2021"
publish = false

[dependencies]
heck = "=0.4.1"
serde = { version = "=1.0.229", features = ["derive"] }
syn = { version = "=1.0.109", features = ["full", "extra-traits", "visit"] }
quote = "=1.0.47"
proc-macro2 = { version = "=1.0.107", features = ["span-locations"] }
darling = "=0.14.4"
quick-xml = "0.22"
glib = "=0.17.10"
gio = "=0.17.10"
cairo-rs = "=0.17.10"
graphene-rs = "=0.17.10"
gdk4 = "=0.6.3"
gsk4 = "=0.6.3"
gtk4 = "=0.6.6"
anyhow = "=1.0.104"
clap = { version = "=3.2.25", features = ["derive"] }
derive-new = "=0.5.9"
futures-util = "=0.3.34"
ignore = "=0.4.34"
thiserror = "=1.0.69"
tokio = { version = "=1.54.1", features = ["rt-multi-thread", "fs", "io-std", "io-util", "process"] }
