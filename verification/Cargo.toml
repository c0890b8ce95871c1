[package]
name = "mio_uds_windows"
version = "0.1.0"
edition = "2021"
publish = false

[dependencies]
log = "0.4"
mio = "0.6"
miow = "0.3"
winapi = { version = "0.3", features = ["handleapi", "ioapiset", "minwinbase", "minwindef", "mswsock", "ntdef", "processthreadsapi", "winbase", "winerror", "winsock2", "ws2def", "ws2tcpip"] }

[dev-dependencies]
tempdir = "0.3"
