use vstd::prelude::*;

use crate::models;

verus! {

/// A leaf node contains either
///  - a set of users (which may be individual users, or usersets
///    referencing other relations)
///  - a computed node, which is the result of a computed userset
///    value in the authorization model
///  - a tupleToUserset nodes, containing the result of expanding
///    a tupleToUserset value in a authorization model.
#[derive(Default, Debug, PartialEq)]
pub struct Leaf {
    pub users: Option<Box<models::Users>>,
    pub computed: Option<Box<models::Computed>>,
    pub tuple_to_userset: Option<Box<models::UsersetTreeTupleToUserset>>,
}

/// A leaf with the contents of its lists, as a mathematical value.
#[verifier::ext_equal]
pub ghost struct LeafShape {
    pub users: Option<Seq<String>>,
    pub computed: Option<models::Computed>,
    pub tuple_to_userset: Option<(String, Seq<models::Computed>)>,
}

impl Leaf {
    /// The leaf by value: the users, the computed userset, and the tupleset
    /// with its computed usersets.
    pub open spec fn shape(self) -> LeafShape {
        LeafShape {
            users: match self.users {
                Some(u) => Some(u.users@),
                None => None,
            },
            computed: match self.computed {
                Some(c) => Some(*c),
                None => None,
            },
            tuple_to_userset: match self.tuple_to_userset {
                Some(t) => Some((t.tupleset, t.computed@)),
                None => None,
            },
        }
    }
}

impl Clone for Leaf {
    fn clone(&self) -> (res: Self)
        ensures
            res.shape() == self.shape(),
    {
        let users = match &self.users {
            Some(u) => Some(Box::new((**u).clone())),
            None => None,
        };
        let computed = match &self.computed {
            Some(c) => Some(Box::new((**c).clone())),
            None => None,
        };
        let tuple_to_userset = match &self.tuple_to_userset {
            Some(t) => Some(Box::new((**t).clone())),
            None => None,
        };
        let res = Leaf { users, computed, tuple_to_userset };
        assert(res.shape() =~= self.shape());
        res
    }
}

} // verus!
