//! A small client for a weather HTTP API: builds the request URL, reads the
//! JSON reply into typed records, and classifies failures.
use vstd::prelude::*;

pub mod client;
pub mod error;
pub mod json;
pub mod laws;
pub mod model;
pub mod url_query;

pub use client::{read_body, read_reply, Reply, WeatherAPI, BASE_URL};
pub use model::{Condition, Current, Location, Response};
pub use error::{map_response_err, Error, ErrorModel};

verus! {

} // verus!
