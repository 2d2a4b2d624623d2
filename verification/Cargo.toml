[package]
name = "wikitext_inspector"
version = "0.1.0"
edition = "2021"
publish = false

[dependencies]
parse_wiki_text = "0.1"
wasm-bindgen = "0.2"
