[package]
name = "audio_merger"
version = "0.1.0"
edition = "2021"
publish = false

[dependencies]
serde_json = "=1.0.154"
log = "=0.4.34"
simplelog = "=0.12.2"
winapi = { version = "0.3", features = ["handleapi", "processthreadsapi", "securitybaseapi", "shellapi", "winnt", "winuser"] }
