[package]
name = "lexer"
version = "0.1.0"
edition = "2021"
publish = false

[dependencies]
lingua = { version = "=1.8.0", default-features = false, features = ["arabic", "bengali", "catalan", "chinese", "danish", "english", "esperanto", "finnish", "french", "hebrew", "hindi", "italian", "japanese", "korean", "polish", "portuguese", "russian", "spanish", "swedish", "turkish", "ukrainian"] }
unicode-segmentation = "=1.10.1"
jieba-rs = "=0.6.8"
twox-hash = "=1.6.3"
