[package]
name = "osu_switcher"
version = "0.1.0"
edition = "2021"
publish = false

[dependencies]
rust-ini = "*"
whoami = "*"
crossterm = "*"
ratatui = "*"
color-eyre = "*"
mslnk = "*"
osu-db = "*"
powershell_script = "*"
seahorse = "*"
