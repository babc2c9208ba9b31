use vstd::prelude::*;

pub mod decimal;
pub mod errors;
pub mod event_stream;
pub mod rest;
pub mod routes;
pub mod utils;

pub use errors::ApiError;
pub use event_stream::{DecodeFault, EventStream, EventsRequest, FetchedEvent};

verus! {

/// The result of an API operation.
pub type Fallible<T> = Result<T, crate::errors::ApiError>;

} // verus!
