//! The HTTP client framework: request heads, bodies, interceptors and calls.

pub mod method;
pub mod request;
pub mod call;
pub mod intercept;
pub mod body;
pub mod response;
