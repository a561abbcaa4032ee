[package]
name = "todo_list"
version = "0.1.0"
edition = "2021"
publish = false

[dependencies]
chrono = "0.4"
clap = "4"
console = "0.15"
dirs = "5"
dotenv = "0.15"
notify-rust = "4"
rusqlite = "0.32"
