use vstd::prelude::*;

use crate::models;

verus! {

#[derive(Clone, Default, Debug, PartialEq)]
pub struct ConditionMetadata {
    pub module: Option<String>,
    pub source_info: Option<Box<models::SourceInfo>>,
}

} // verus!
