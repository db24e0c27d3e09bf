//! Data model of the HTTP API surface: response envelopes, request and
//! response bodies, and server configuration. The transport (routing,
//! serialization) lives outside this crate.

pub mod config;
pub mod dto;
pub mod response;
