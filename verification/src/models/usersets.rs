use vstd::prelude::*;

use crate::models;

verus! {

#[derive(Default, Debug, PartialEq)]
pub struct Usersets {
    pub child: Vec<models::Userset>,
}

impl Clone for Usersets {
    fn clone(&self) -> (res: Self)
        ensures
            models::userset::userset_list_shape(res.child@)
                == models::userset::userset_list_shape(self.child@),
        decreases self,
    {
        let mut child: Vec<models::Userset> = Vec::new();
        let mut i: usize = 0;
        while i < self.child.len()
            invariant
                i <= self.child.len(),
                child@.len() == i,
                forall|j: int| 0 <= j < i ==> (#[trigger] child@[j]).shape() == self.child@[j].shape(),
            decreases self.child.len() - i,
        {
            proof {
                vstd::std_specs::vec::axiom_vec_index_decreases(self.child, i as int);
            }
            child.push(self.child[i].clone());
            i += 1;
        }
        assert(models::userset::userset_list_shape(child@) =~= models::userset::userset_list_shape(
            self.child@,
        ));
        Usersets { child }
    }
}

} // verus!
