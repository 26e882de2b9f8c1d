[package]
name = "import_lib"
version = "0.1.0"
edition = "2021"
publish = false

[dependencies]
ar_archive_writer = "=0.5.3"
object = "=0.40.0"
