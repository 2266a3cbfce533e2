use vstd::prelude::*;

use crate::models;

verus! {

#[derive(Clone, Default, Debug, PartialEq)]
pub struct TupleKey {
    pub user: String,
    pub relation: String,
    pub object: String,
    pub condition: Option<Box<models::RelationshipCondition>>,
}

} // verus!
