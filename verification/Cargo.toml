[package]
name = "automata"
version = "0.1.0"
edition = "2021"
publish = false

[dependencies]
base64 = "=0.22.1"
evalexpr = "=13.1.0"
regex = "=1.13.1"
unit-conversions = "=0.1.16"
freedesktop-desktop-entry = "=0.8.4"
xdg-utils = "=0.4.0"
wl-clipboard-rs = "=0.9.4"
logind-zbus = "=5.3.2"
zbus = "=5.19.0"
gtk4 = "=0.11.5"
