use vstd::prelude::*;

use crate::models;

verus! {

#[derive(Default, Debug, PartialEq)]
pub struct UsersetTreeDifference {
    pub base: Box<models::Node>,
    pub subtract: Box<models::Node>,
}

impl Clone for UsersetTreeDifference {
    fn clone(&self) -> (res: Self)
        ensures
            res.base.shape() == self.base.shape(),
            res.subtract.shape() == self.subtract.shape(),
        decreases self,
    {
        UsersetTreeDifference {
            base: Box::new((*self.base).clone()),
            subtract: Box::new((*self.subtract).clone()),
        }
    }
}

} // verus!
