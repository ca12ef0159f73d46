[package]
name = "trillium_grpc"
version = "0.3.0"
edition = "2021"
publish = false

[dependencies]
async-channel = "=2.5.0"
base64 = "=0.23.1"
bytes = "=1.12.1"
env_logger = "=0.11.11"
flate2 = "=1.1.10"
futures-lite = "=2.6.1"
log = "=0.4.35"
pin-project-lite = "=0.2.17"
prettyplease = "=0.2.37"
proc-macro2 = "=1.0.107"
prost = "=0.14.4"
prost-build = "=0.14.4"
prost-types = "=0.14.4"
protox = "=0.10.0"
quote = "=1.0.47"
rustls-pemfile = "=2.2.0"
syn = { version = "=2.0.119", features = ["extra-traits", "full", "parsing", "printing"] }
sync_wrapper = "=1.0.2"
thiserror = "=2.0.21"
tokio = { version = "=1.54.1", features = ["rt-multi-thread", "macros", "time", "sync"] }
trillium = "=1.4.0"
trillium-client = "=0.9.10"
trillium-http = "=1.4.2"
trillium-rustls = "=0.11.3"
trillium-server-common = "=0.7.11"
trillium-tokio = "=0.6.4"
zstd = "=0.14.3"
