//! The execution core of a REST client: requests are described on the calling
//! thread, queued as jobs, run by workers that survive a failing job, and
//! answered through a handle that resolves exactly once.
//!
//! The crate holds the decisions and the data; threads, locks, sockets and
//! sleeping belong to the program that embeds it. Every type that several
//! threads would share is handed to its operations as an explicit `&mut`
//! state, so that one lock around it is all an embedding needs.

pub mod adapter;
pub mod error;
pub mod executor;
pub mod mpmc;
pub mod mime;
pub mod net;
pub mod serialize;

pub use adapter::{Adapter, AdapterBuilder, InterceptorMut};
pub use error::Error;
pub use net::body::RawBody;
pub use net::request::Request;

use vstd::prelude::*;

verus! {

/// The result type for this crate; used frequently in public APIs.
///
/// Recommended to be used as `anterofit::Result` to avoid confusing
/// shadowing of `std::result::Result`.
pub type Result<T> = core::result::Result<T, Error>;

} // verus!
