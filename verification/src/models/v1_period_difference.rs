use vstd::prelude::*;

use crate::models;

verus! {

#[derive(Default, Debug, PartialEq)]
pub struct V1PeriodDifference {
    pub base: Box<models::Userset>,
    pub subtract: Box<models::Userset>,
}

impl Clone for V1PeriodDifference {
    fn clone(&self) -> (res: Self)
        ensures
            res.base.shape() == self.base.shape(),
            res.subtract.shape() == self.subtract.shape(),
        decreases self,
    {
        V1PeriodDifference {
            base: Box::new((*self.base).clone()),
            subtract: Box::new((*self.subtract).clone()),
        }
    }
}

} // verus!
