[package]
name = "vdom_el"
version = "0.1.0"
edition = "2021"
publish = false

[dependencies]
pulldown-cmark = "*"
web-sys = { version = "0.3", features = ["Window", "Document", "Element", "Node", "NodeList", "Text", "CharacterData", "NamedNodeMap", "Attr", "Comment"] }
