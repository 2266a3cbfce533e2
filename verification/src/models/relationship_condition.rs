use vstd::prelude::*;

verus! {

#[derive(Clone, Default, Debug, PartialEq)]
pub struct RelationshipCondition {
    /// A reference (by name) of the relationship condition defined in the authorization model.
    pub name: String,
    /// Additional context/data to persist along with the condition. The keys must match the parameters defined by the condition, and the value types must match the parameter type definitions.
    pub context: Option<serde_json::Value>,
}

} // verus!
