//! A small task service: an ordered in-memory store of task records and the
//! request handlers that turn one store operation into one response.
//!
//! Every handler is a function from plain values to a [`response::Response`];
//! transport, routing and encoding are left to the caller.

pub mod task;
pub mod model;
pub mod store;
pub mod text;
pub mod response;
pub mod handlers;
pub mod laws;
