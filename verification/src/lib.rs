//! A stateless HTTP request handler that answers every inbound request with a
//! fixed banner message rendered as multi-line FIGlet text art.
//!
//! The handler never inspects the request: the response is a function of the
//! render outcome alone, status 200 carrying the figure on success and status
//! 500 carrying a fixed notice when the renderer fails.

pub mod handler;
pub mod render;
