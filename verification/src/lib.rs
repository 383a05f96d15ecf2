//! Bridging core of an HTTP server front-end: translation between wire-level
//! HTTP primitives and a normalized request/response model, the per-request
//! pipeline decisions (buffer the body, translate, dispatch to the handler,
//! resolve the outcome), and the synthesized error responses that keep every
//! fault contained to its own request.

pub mod config;
pub mod laws;
pub mod message;
pub mod pipeline;
pub mod translate;
