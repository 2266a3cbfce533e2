use vstd::prelude::*;

verus! {

#[derive(Default, Debug, PartialEq)]
pub struct ObjectRelation {
    pub object: Option<String>,
    pub relation: Option<String>,
}


impl Clone for ObjectRelation {
    fn clone(&self) -> (res: Self)
        ensures
            res == *self,
    {
        ObjectRelation { object: self.object.clone(), relation: self.relation.clone() }
    }
}

} // verus!
