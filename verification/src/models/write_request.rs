use vstd::prelude::*;

use crate::models;

verus! {

#[derive(Clone, Debug, PartialEq)]
pub struct WriteRequest {
    pub writes: Option<Box<models::WriteRequestWrites>>,
    pub deletes: Option<Box<models::WriteRequestDeletes>>,
    pub authorization_model_id: Option<String>,
}

impl WriteRequest {
    pub fn new() -> (res: WriteRequest)
        ensures
            res.writes is None,
            res.deletes is None,
            res.authorization_model_id is None,
    {
        WriteRequest { writes: None, deletes: None, authorization_model_id: None }
    }
}

/// The empty value, as `new` gives it.
impl Default for WriteRequest {
    fn default() -> (res: WriteRequest)
        ensures
            res.writes is None,
            res.deletes is None,
            res.authorization_model_id is None,
    {
        WriteRequest::new()
    }
}

} // verus!
