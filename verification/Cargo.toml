[package]
name = "dungeon_raid_tui"
version = "0.1.0"
edition = "2021"
publish = false

[dependencies]
crossterm = "=0.26.1"
ratatui = "=0.21.0"
