[package]
name = "sprite_animation"
version = "0.1.0"
edition = "2021"
publish = false

[dependencies.bevy]
version = "=0.17.3"
default-features = false
features = [
    "std",
    "bevy_asset",
    "bevy_camera",
    "bevy_color",
    "bevy_image",
    "bevy_sprite",
    "bevy_text",
    "bevy_ui",
    "bevy_window",
    "png",
]
