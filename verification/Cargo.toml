[package]
name = "player_animation"
version = "0.1.0"
edition = "2021"
publish = false

[dependencies]
bevy = { version = "=0.17.3", default-features = false, features = ["std", "async_executor", "multi_threaded", "bevy_asset", "bevy_color", "bevy_core_pipeline", "bevy_post_process", "bevy_render", "bevy_image", "bevy_mesh", "bevy_camera", "bevy_shader", "bevy_sprite", "bevy_sprite_render", "bevy_text", "bevy_ui", "bevy_ui_render", "bevy_window", "png"] }
num = "=0.4.3"
