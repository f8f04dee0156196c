//! A client library for the MAX messenger protocol: the data models, the
//! request payloads, the answers' processing and the navigation model behind
//! its background telemetry.
pub mod json;
pub mod text;
pub mod models;
pub mod navigation;
pub mod fingerprint;
pub mod api;
pub mod errors;
