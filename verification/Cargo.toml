[package]
name = "booky"
version = "0.1.0"
edition = "2021"
publish = false

[dependencies]
chrono = "0.4"
crossterm = "0.25"
diesel = { version = "2", features = ["sqlite", "chrono", "returning_clauses_for_sqlite_3_35"] }
diesel_migrations = "2"
dirs-2 = "*"
libsqlite3-sys = { version = "*", features = ["bundled"] }
tui = "0.19"
