use vstd::prelude::*;

use crate::models;

verus! {

#[derive(Clone, Default, Debug, PartialEq)]
pub struct Assertion {
    pub tuple_key: Box<models::AssertionTupleKey>,
    pub expectation: bool,
}

impl Assertion {
    pub fn new(tuple_key: models::AssertionTupleKey, expectation: bool) -> (res: Assertion)
        ensures
            *res.tuple_key == tuple_key,
            res.expectation == expectation,
    {
        Assertion { tuple_key: Box::new(tuple_key), expectation }
    }
}

} // verus!
