use vstd::prelude::*;

verus! {

#[derive(Clone, Default, Debug, PartialEq)]
pub struct TupleKeyWithoutCondition {
    pub user: String,
    pub relation: String,
    pub object: String,
}

} // verus!
