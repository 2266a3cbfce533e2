use vstd::prelude::*;

use crate::models;

verus! {

#[derive(Clone, Default, Debug, PartialEq)]
pub struct WriteRequestWrites {
    pub tuple_keys: Vec<models::TupleKey>,
    pub on_duplicate: Option<String>,
}

} // verus!
