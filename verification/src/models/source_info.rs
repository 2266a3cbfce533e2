use vstd::prelude::*;

verus! {

#[derive(Clone, Default, Debug, PartialEq)]
pub struct SourceInfo {
    pub file: Option<String>,
}

} // verus!
