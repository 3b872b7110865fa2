//! Verified core of the PyWatt module SDK.

pub mod app_state;
pub mod bootstrap;
pub mod cache;
pub mod database;
pub mod error;
pub mod headers;
pub mod http_ipc;
pub mod http_tcp;
pub mod internal_messaging;
pub mod ipc;
pub mod ipc_types;
pub mod json_value;
pub mod jwt;
pub mod laws;
pub mod proxy;
pub mod routing;
pub mod sys;
pub mod text;
pub mod uri;
