use vstd::prelude::*;

use crate::models;

verus! {

/// A UsersetTree contains the result of an Expansion.
#[derive(Clone, Default, Debug, PartialEq)]
pub struct UsersetTree {
    pub root: Option<Box<models::Node>>,
}

} // verus!
