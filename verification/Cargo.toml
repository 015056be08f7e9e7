[package]
name = "styled_text"
version = "0.1.0"
edition = "2021"
publish = false

[dependencies]
glyph_brush_layout = "*"
serde = { version = "*", features = ["derive"] }
