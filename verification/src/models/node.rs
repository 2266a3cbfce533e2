use vstd::prelude::*;

use crate::models;

verus! {

#[derive(Default, Debug, PartialEq)]
pub struct Node {
    pub name: String,
    pub leaf: Option<Box<models::Leaf>>,
    pub difference: Option<Box<models::UsersetTreeDifference>>,
    pub union: Option<Box<models::Nodes>>,
    pub intersection: Option<Box<models::Nodes>>,
}

/// A node of a userset tree with all the nodes below it, as a mathematical
/// value.
#[verifier::ext_equal]
pub ghost struct NodeShape {
    pub name: String,
    pub leaf: Option<models::LeafShape>,
    pub difference: Option<(Box<NodeShape>, Box<NodeShape>)>,
    pub union: Option<Seq<NodeShape>>,
    pub intersection: Option<Seq<NodeShape>>,
}

/// The shapes of a list of nodes, in order.
pub open spec fn node_list_shape(nodes: Seq<Node>) -> Seq<NodeShape>
    decreases nodes,
{
    Seq::new(
        nodes.len(),
        |i: int|
            if 0 <= i < nodes.len() {
                nodes[i].shape()
            } else {
                arbitrary()
            },
    )
}

impl Node {
    /// The node by value, with every node below it.
    pub open spec fn shape(self) -> NodeShape
        decreases self,
    {
        NodeShape {
            name: self.name,
            leaf: match self.leaf {
                Some(l) => Some(l.shape()),
                None => None,
            },
            difference: match self.difference {
                Some(d) => Some((Box::new(d.base.shape()), Box::new(d.subtract.shape()))),
                None => None,
            },
            union: match self.union {
                Some(n) => Some(node_list_shape(n.nodes@)),
                None => None,
            },
            intersection: match self.intersection {
                Some(n) => Some(node_list_shape(n.nodes@)),
                None => None,
            },
        }
    }
}

impl Clone for Node {
    fn clone(&self) -> (res: Self)
        ensures
            res.shape() == self.shape(),
        decreases self,
    {
        let leaf = match &self.leaf {
            Some(l) => Some(Box::new((**l).clone())),
            None => None,
        };
        let difference = match &self.difference {
            Some(b) => {
                proof {
                    assert(decreases_to!(self.difference => self.difference->0));
                }
                Some(Box::new((**b).clone()))
            },
            None => None,
        };
        let union = match &self.union {
            Some(b) => {
                proof {
                    assert(decreases_to!(self.union => self.union->0));
                }
                Some(Box::new((**b).clone()))
            },
            None => None,
        };
        let intersection = match &self.intersection {
            Some(b) => {
                proof {
                    assert(decreases_to!(self.intersection => self.intersection->0));
                }
                Some(Box::new((**b).clone()))
            },
            None => None,
        };
        let res = Node { name: self.name.clone(), leaf, difference, union, intersection };
        assert(res.shape() =~= self.shape());
        res
    }
}

} // verus!
