use vstd::prelude::*;

verus! {

#[derive(Clone, Default, Debug, PartialEq)]
pub struct AssertionTupleKey {
    pub object: String,
    pub relation: String,
    pub user: String,
}

impl AssertionTupleKey {
    pub fn new(object: String, relation: String, user: String) -> (res: AssertionTupleKey)
        ensures
            res.object == object,
            res.relation == relation,
            res.user == user,
    {
        AssertionTupleKey { object, relation, user }
    }
}

} // verus!
