use vstd::prelude::*;

verus! {

#[derive(Default, Debug, PartialEq)]
pub struct Computed {
    pub userset: String,
}


impl Clone for Computed {
    fn clone(&self) -> (res: Self)
        ensures
            res == *self,
    {
        Computed { userset: self.userset.clone() }
    }
}

} // verus!
