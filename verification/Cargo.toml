[package]
name = "qb_sync"
version = "0.5.0"
edition = "2021"
publish = false

[dependencies]
anyhow = "1"
chrono = "0.4"
futures = "0.3"
log = { version = "0.4", features = ["std"] }
tokio = { version = "1", features = ["macros", "rt-multi-thread", "sync", "time"] }
winapi = { version = "0.3", features = ["combaseapi", "handleapi", "objbase", "processthreadsapi", "tlhelp32", "winnt"] }
