[package]
name = "fireworks"
version = "0.1.0"
edition = "2021"
publish = false

[dependencies]
rand = "=0.8.8"
console_error_panic_hook = "=0.1.7"
bevy = { version = "0.16", default-features = false, features = ["std", "async_executor", "bevy_asset", "bevy_color", "bevy_core_pipeline", "bevy_log", "bevy_render", "bevy_sprite", "bevy_window", "bevy_winit", "hdr", "multi_threaded", "png", "tonemapping_luts", "x11"] }
