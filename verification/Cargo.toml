[package]
name = "promchart"
version = "0.1.0"
edition = "2021"
publish = false

[dependencies]
chrono = "=0.4.45"
hsluv = "=0.3.1"
hyper = { version = "=0.14.32", features = ["server", "http1", "tcp"] }
image = { version = "=0.24.9", default-features = false, features = ["png"] }
itertools = "=0.15.0"
plotters = { version = "=0.3.7", default-features = false, features = ["bitmap_backend", "chrono", "line_series", "ttf"] }
plotters-bitmap = { version = "=0.3.7", default-features = false }
reqwest = { version = "=0.11.27", default-features = false, features = ["json"] }
serde = { version = "=1.0.229", features = ["derive"] }
serde_qs = "=1.1.3"
tera = "=1.20.1"
thiserror = "=1.0.69"
tokio = { version = "=1.54.1", features = ["macros", "rt-multi-thread"] }
