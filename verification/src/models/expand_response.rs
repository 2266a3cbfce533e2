use vstd::prelude::*;

use crate::models;

verus! {

#[derive(Clone, Debug, PartialEq)]
pub struct ExpandResponse {
    pub tree: Option<Box<models::UsersetTree>>,
}

impl ExpandResponse {
    pub fn new() -> (res: ExpandResponse)
        ensures
            res.tree is None,
    {
        ExpandResponse { tree: None }
    }
}

/// The empty value, as `new` gives it.
impl Default for ExpandResponse {
    fn default() -> (res: ExpandResponse)
        ensures
            res.tree is None,
    {
        ExpandResponse::new()
    }
}

} // verus!
