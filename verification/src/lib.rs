//! Dereferencing of local `$ref` pointers inside a single OpenAPI 3.1
//! document: every reference slot is replaced by the object it points to,
//! while keeping the original pointer string as provenance.

use vstd::prelude::*;

pub mod cache;
pub mod decode;
pub mod error;
pub mod facade;
pub mod json;
pub mod laws;
pub mod model;
pub mod pointer;
pub mod schema;
pub mod seqs;
pub mod walk;

pub use error::OpenApiError;
pub use facade::OpenApiDereferencer;
pub use json::JsonValue;
pub use pointer::ref_to_json_path;

verus! {

} // verus!
