use vstd::prelude::*;

use crate::models;

verus! {

#[derive(Default, Debug, PartialEq)]
pub struct Nodes {
    pub nodes: Vec<models::Node>,
}

impl Clone for Nodes {
    fn clone(&self) -> (res: Self)
        ensures
            models::node::node_list_shape(res.nodes@) == models::node::node_list_shape(
                self.nodes@,
            ),
        decreases self,
    {
        let mut nodes: Vec<models::Node> = Vec::new();
        let mut i: usize = 0;
        while i < self.nodes.len()
            invariant
                i <= self.nodes.len(),
                nodes@.len() == i,
                forall|j: int| 0 <= j < i ==> (#[trigger] nodes@[j]).shape() == self.nodes@[j].shape(),
            decreases self.nodes.len() - i,
        {
            proof {
                vstd::std_specs::vec::axiom_vec_index_decreases(self.nodes, i as int);
            }
            nodes.push(self.nodes[i].clone());
            i += 1;
        }
        assert(models::node::node_list_shape(nodes@) =~= models::node::node_list_shape(
            self.nodes@,
        ));
        Nodes { nodes }
    }
}

} // verus!
