//! A Kubernetes client for WASI components, written against the host's
//! resource interface: each API operation is described as the host call it
//! makes, together with the rules that turn the host's answers into results.

pub mod error;
pub mod host;
pub mod time;
pub mod params;
pub mod config;
pub mod config_ext;
pub mod client;
pub mod api;
pub mod convert;
pub mod calls;
pub mod subresource;
pub mod util;
pub mod body;
pub mod response;
pub mod answers;
pub mod laws;
