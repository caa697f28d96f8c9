[package]
name = "tunes"
version = "0.1.0"
edition = "2021"
publish = false

[dependencies]
audiotags = "=0.4.1"
crossterm = "=0.27.0"
eyre = "=0.6.14"
mp3-duration = "=0.1.10"
ratatui = "=0.26.3"
rodio = "=0.19.0"
