[package]
name = "cooking_book"
version = "0.1.0"
edition = "2021"
publish = false

[dependencies]
diesel = { version = "=2.3.14", features = ["sqlite", "r2d2", "time", "returning_clauses_for_sqlite_3_35"] }
rocket = { version = "=0.5.2", features = ["json"] }
rocket_dyn_templates = { version = "=0.2.0", features = ["tera"] }
serde = { version = "=1.0.229", features = ["derive"] }
time = { version = "=0.3.55", features = ["formatting"] }

[dev-dependencies]
regex = "=1.13.1"
