[package]
name = "mdeno"
version = "0.1.0"
edition = "2021"
publish = false

[dependencies]
rkyv = "=0.8.18"
rquickjs = { version = "=0.14.0", features = ["loader", "futures", "macro"] }
getrandom = "=0.3.4"
serde = { version = "=1.0.229", features = ["derive"] }
serde_json = "=1.0.154"
base64 = "=0.22.1"
sys-locale = "=0.3.2"
bpaf = "=0.9.28"
clap_lex = "=1.1.1"
libsui = "=0.16.4"
compio = { version = "=0.19.2", features = ["runtime", "macros"] }
cyper = "=0.9.0"
deno_terminal = "=0.2.3"
oxc_allocator = "=0.141.0"
oxc_ast = "=0.141.0"
oxc_parser = "=0.141.0"
oxc_span = "=0.141.0"
oxc_codegen = "=0.141.0"
oxc_semantic = "=0.141.0"
oxc_transformer = "=0.141.0"
ada-url = "=4.0.0"
ars = "=0.0.3"
tempfile = "=3.27.0"
