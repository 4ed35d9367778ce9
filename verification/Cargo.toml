[package]
name = "wakeword_listener"
version = "0.1.0"
edition = "2021"
publish = false

[dependencies]
bincode = "1"
hound = "3"
portaudio = "0.7"
ringbuf = "0.2"
