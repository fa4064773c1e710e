[package]
name = "voice_assistant"
version = "0.1.0"
edition = "2021"
publish = false

[dependencies]
ctrlc = "*"
openai-api = "=0.1.4"
tokio = { version = "*", features = ["macros", "rt-multi-thread"] }
