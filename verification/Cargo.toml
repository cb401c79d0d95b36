[package]
name = "onscreen_ocr"
version = "0.1.0"
edition = "2021"
publish = false

[dependencies]
serde = { version = "1", features = ["derive"] }
bincode = "1.3"
toml = "0.8"
directories = "5"
include_dir = "0.7"
bytemuck = { version = "1", features = ["derive"] }
image = { version = "0.24", default-features = false, features = ["png"] }
glyph_brush = "0.7"
winit = { version = "0.30", default-features = false, features = ["x11", "rwh_05"] }
inputbot = "0.6"
clipboard = "0.5"
clipboard-win = "5"
leptess = "0.14"
scrap = "0.5"
