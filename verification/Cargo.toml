[package]
name = "imgcrsh"
version = "0.1.0"
edition = "2021"
publish = false

[dependencies]
anyhow = "1"
kamadak-exif = "0.6"
fast_image_resize = "5"
image = { version = "0.25", default-features = false, features = ["jpeg", "png", "webp", "gif"] }
imagequant = { version = "4", default-features = false }
jpegxl-rs = "0.11"
moxcms = "0.7"
mozjpeg = "0.10"
oxipng = { version = "9", default-features = false }
ravif = { version = "0.11", default-features = false }
webp = "0.3"
gif = "0.13"
