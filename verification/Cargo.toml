[package]
name = "rs_ffmpeg_wrapper"
version = "0.1.0"
edition = "2021"
publish = false

[dependencies]
clap = { version = "=4.5.61", default-features = false, features = ["std", "derive", "help", "usage"] }
iced = { version = "=0.13.1", default-features = false, features = ["tiny-skia"] }
iced_aw = { version = "=0.11.0", default-features = false, features = ["number_input", "selection_list"] }
num_cpus = "=1.17.0"
