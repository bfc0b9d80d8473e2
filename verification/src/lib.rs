//! A dynamic gateway for the Model Context Protocol: tools are declared as
//! data, kept in an in-memory catalog, and each invocation is translated
//! into an outbound HTTP call.

pub mod text;
pub mod json;
pub mod status;
pub mod error;
pub mod xds;
pub mod cache;
pub mod method;
pub mod protocol;
pub mod handler;
pub mod tool_call;
pub mod dispatch;
pub mod rest;
pub mod config;
pub mod admin;
pub mod etcd;
pub mod session;
pub mod sse;
pub mod transport;
pub mod datasource;
pub mod headers;
