[package]
name = "renderenko"
version = "0.1.0"
edition = "2021"
publish = false

[dependencies]
uuid = { version = "1", features = ["v4"] }
image = { version = "0.25", default-features = false, features = ["png"] }
nalgebra = "0.33"
fast_image_resize = { version = "5", features = ["image"] }
actix-web = { version = "4", default-features = false, features = ["macros"] }
actix-multipart = "0.7"
