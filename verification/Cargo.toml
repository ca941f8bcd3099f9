[package]
name = "bly"
version = "0.1.0"
edition = "2021"
publish = false

[dependencies]
raw-window-handle = "0.5"
log = "0.4"
env_logger = "0.10"
once_cell = "1"
winapi = { version = "0.3", features = ["winuser", "wingdi", "windef", "minwindef"] }
x11 = { version = "2", features = ["xlib"] }
cairo-sys-rs = { version = "0.18", features = ["xlib"] }
khronos-egl = { version = "6", features = ["static"] }
wayland-sys = { version = "0.31", features = ["client", "egl", "dlopen"] }
wasm-bindgen = "0.2"
web-sys = { version = "0.3", features = ["Window", "Document", "Element", "HtmlCanvasElement", "CanvasRenderingContext2d", "CssStyleDeclaration", "HtmlElement", "Node"] }
