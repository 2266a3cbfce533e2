use vstd::prelude::*;

use crate::models;

verus! {

#[derive(Clone, Default, Debug, PartialEq)]
pub struct WriteRequestDeletes {
    pub tuple_keys: Vec<models::TupleKeyWithoutCondition>,
    pub on_missing: Option<String>,
}

} // verus!
