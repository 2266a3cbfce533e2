use vstd::prelude::*;

use crate::models;

verus! {

#[derive(Default, Debug, PartialEq)]
pub struct UsersetTreeTupleToUserset {
    pub tupleset: String,
    pub computed: Vec<models::Computed>,
}


impl Clone for UsersetTreeTupleToUserset {
    fn clone(&self) -> (res: Self)
        ensures
            res.tupleset == self.tupleset,
            res.computed@ == self.computed@,
    {
        let computed = self.computed.clone();
        assert(computed@ =~= self.computed@);
        UsersetTreeTupleToUserset { tupleset: self.tupleset.clone(), computed }
    }
}

} // verus!
