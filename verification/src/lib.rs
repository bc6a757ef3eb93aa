//! A command bridge between a desktop interface and two local HTTP services.
//!
//! The bridge turns a named operation and its arguments into one HTTP request,
//! and turns whatever came back into either a typed result or a tagged error.
//! Sending the request is left to the caller; everything that decides is here.

pub mod bridge;
pub mod error;
pub mod json;
pub mod laws;
pub mod operation;
pub mod reply;
pub mod request;
pub mod text;
