use vstd::prelude::*;

verus! {

/// Response returned by the Write API on success.
/// 
/// The server returns an empty JSON object (`{}`); this struct captures that
/// contract so callers get a typed value rather than a raw JSON value.
#[derive(Debug, Clone, Default)]
pub struct WriteResponse {
}

} // verus!
