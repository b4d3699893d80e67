[package]
name = "tagged_pipeline"
version = "0.1.0"
edition = "2021"
publish = false

[dependencies]
actix-session = { version = "*", features = ["cookie-session"] }
actix-web = { version = "*", default-features = false, features = ["cookies", "secure-cookies"] }
awc = { version = "*", default-features = false }
axum = { version = "*", default-features = false }
axum_session = { version = "*", default-features = false }
chrono = "*"
cmd_lib = "*"
csv = "*"
duct_sh = "*"
flate2 = "*"
ldap3 = { version = "*", default-features = false, features = ["sync"] }
libxml = "*"
md4 = "*"
md5 = "*"
reqwest = { version = "*", default-features = false }
rhai = "*"
rocket = { version = "*", default-features = false }
rusqlite = "*"
sxd-xpath = "*"
tower-http = { version = "*", features = ["fs"] }
