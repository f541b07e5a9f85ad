[package]
name = "dirwatch"
version = "0.1.0"
edition = "2021"
publish = false

[dependencies]
console = "0.15"
ctrlc = "3"
notify = "6"
notify-debouncer-mini = "0.4"
