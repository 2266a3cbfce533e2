use vstd::prelude::*;

use crate::models;

verus! {

#[derive(Default, Debug, PartialEq)]
pub struct V1PeriodTupleToUserset {
    pub tupleset: Box<models::ObjectRelation>,
    pub computed_userset: Box<models::ObjectRelation>,
}


impl Clone for V1PeriodTupleToUserset {
    fn clone(&self) -> (res: Self)
        ensures
            res == *self,
    {
        V1PeriodTupleToUserset {
            tupleset: Box::new((*self.tupleset).clone()),
            computed_userset: Box::new((*self.computed_userset).clone()),
        }
    }
}

} // verus!
