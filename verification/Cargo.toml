[package]
name = "osu_memory_reader"
version = "0.1.0"
edition = "2021"
publish = false

[dependencies]
futures = "0.3"
irc = { version = "1", default-features = false }
rosu-pp = "1"
tokio = { version = "1", features = ["macros", "rt", "time"] }
windows = { version = "0.52", features = ["Win32_Foundation", "Win32_System_Diagnostics_Debug", "Win32_System_Diagnostics_ToolHelp", "Win32_System_Memory", "Win32_System_ProcessStatus", "Win32_System_Threading"] }
