[package]
name = "cli_notes"
version = "0.1.0"
edition = "2021"
publish = false

[dependencies]
rusqlite = { version = "*", features = ["bundled", "chrono"] }
chrono = "*"
clap = { version = "4", features = ["derive"] }
dirs = "*"
rustyline = "*"
termimad = "*"
async-trait = "*"
diesel = { version = "*", default-features = false }
