use vstd::prelude::*;

pub mod domain;
pub mod routes;
pub mod services;
pub mod utils;

verus! {

/// Body shape of every error reply: `{ "error": <human-readable string> }`.
pub struct ErrorResponse {
    pub error: String,
}


} // verus!
