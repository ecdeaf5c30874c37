[package]
name = "mysql_sniffer"
version = "0.1.0"
edition = "2021"
publish = false

[dependencies]
pcap = "*"
structopt = "*"
libc = "*"
