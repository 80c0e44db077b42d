//! The uniform value every transformation returns on success.

use vstd::prelude::*;

verus! {

/// One structured metadata value in a result's details.
pub enum DetailValue {
    Count(u64),
    Text(String),
}

/// The result envelope: status, derived output path, a human-readable
/// message, and structured metadata.
pub struct ProcessResult {
    pub status: String,
    pub output_file: Option<String>,
    pub message: String,
    pub details: Vec<(String, DetailValue)>,
}

} // verus!
