use vstd::prelude::*;

use crate::models;

verus! {

#[derive(Clone, Default, Debug, PartialEq)]
pub struct Condition {
    pub name: String,
    /// A Google CEL expression, expressed as a string.
    pub expression: String,
    /// A map of parameter names to the parameter's defined type reference.
    pub parameters: Option<std::collections::HashMap<String, models::ConditionParamTypeRef>>,
    pub metadata: Option<Box<models::ConditionMetadata>>,
}

impl Condition {
    pub fn new(name: String, expression: String) -> (res: Condition)
        ensures
            res.name == name,
            res.expression == expression,
            res.parameters is None,
            res.metadata is None,
    {
        Condition { name, expression, parameters: None, metadata: None }
    }
}

} // verus!
