[package]
name = "pancurses"
version = "0.1.0"
edition = "2021"
publish = false

[dependencies]
libc = "=0.2.191"
log = "=0.4.34"
ncurses = "=5.101.0"
pdcurses-sys = "=0.7.1"
winreg = "=0.56.0"
