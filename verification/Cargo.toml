[package]
name = "sad"
version = "0.1.0"
edition = "2021"
publish = false

[dependencies]
aho-corasick = "0.7"
atty = "0.2"
regex = "1"
shlex = "1"
structopt = "0.3"
which = "4"
