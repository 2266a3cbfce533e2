use vstd::prelude::*;

use crate::models;

verus! {

#[derive(Debug, PartialEq)]
pub struct Userset {
    /// A DirectUserset is a sentinel message for referencing the direct members specified by an object/relation mapping.
    pub this: Option<serde_json::Value>,
    pub computed_userset: Option<Box<models::ObjectRelation>>,
    pub tuple_to_userset: Option<Box<models::V1PeriodTupleToUserset>>,
    pub union: Option<Box<models::Usersets>>,
    pub intersection: Option<Box<models::Usersets>>,
    pub difference: Option<Box<models::V1PeriodDifference>>,
}

/// A userset with all the usersets nested in it, as a mathematical value.
#[verifier::ext_equal]
pub ghost struct UsersetShape {
    pub this: Option<serde_json::Value>,
    pub computed_userset: Option<models::ObjectRelation>,
    pub tuple_to_userset: Option<models::V1PeriodTupleToUserset>,
    pub union: Option<Seq<UsersetShape>>,
    pub intersection: Option<Seq<UsersetShape>>,
    pub difference: Option<(Box<UsersetShape>, Box<UsersetShape>)>,
}

/// The shapes of a list of usersets, in order.
pub open spec fn userset_list_shape(usersets: Seq<Userset>) -> Seq<UsersetShape>
    decreases usersets,
{
    Seq::new(
        usersets.len(),
        |i: int|
            if 0 <= i < usersets.len() {
                usersets[i].shape()
            } else {
                arbitrary()
            },
    )
}

impl Userset {
    /// The userset by value, with every userset nested in it.
    pub open spec fn shape(self) -> UsersetShape
        decreases self,
    {
        UsersetShape {
            this: self.this,
            computed_userset: match self.computed_userset {
                Some(c) => Some(*c),
                None => None,
            },
            tuple_to_userset: match self.tuple_to_userset {
                Some(t) => Some(*t),
                None => None,
            },
            union: match self.union {
                Some(u) => Some(userset_list_shape(u.child@)),
                None => None,
            },
            intersection: match self.intersection {
                Some(u) => Some(userset_list_shape(u.child@)),
                None => None,
            },
            difference: match self.difference {
                Some(d) => Some((Box::new(d.base.shape()), Box::new(d.subtract.shape()))),
                None => None,
            },
        }
    }

    pub fn new() -> (res: Userset)
        ensures
            res.this is None,
            res.computed_userset is None,
            res.tuple_to_userset is None,
            res.union is None,
            res.intersection is None,
            res.difference is None,
    {
        Userset {
            this: None,
            computed_userset: None,
            tuple_to_userset: None,
            union: None,
            intersection: None,
            difference: None,
        }
    }
}

/// The empty value, as `new` gives it.
impl Default for Userset {
    fn default() -> (res: Userset)
        ensures
            res.this is None,
            res.computed_userset is None,
            res.tuple_to_userset is None,
            res.union is None,
            res.intersection is None,
            res.difference is None,
    {
        Userset::new()
    }
}

impl Clone for Userset {
    fn clone(&self) -> (res: Self)
        ensures
            res.shape() == self.shape(),
        decreases self,
    {
        let this = match &self.this {
            Some(v) => Some(v.clone()),
            None => None,
        };
        let computed_userset = match &self.computed_userset {
            Some(c) => Some(Box::new((**c).clone())),
            None => None,
        };
        let tuple_to_userset = match &self.tuple_to_userset {
            Some(t) => Some(Box::new((**t).clone())),
            None => None,
        };
        let union = match &self.union {
            Some(b) => {
                proof {
                    assert(decreases_to!(self.union => self.union->0));
                }
                Some(Box::new((**b).clone()))
            },
            None => None,
        };
        let intersection = match &self.intersection {
            Some(b) => {
                proof {
                    assert(decreases_to!(self.intersection => self.intersection->0));
                }
                Some(Box::new((**b).clone()))
            },
            None => None,
        };
        let difference = match &self.difference {
            Some(b) => {
                proof {
                    assert(decreases_to!(self.difference => self.difference->0));
                }
                Some(Box::new((**b).clone()))
            },
            None => None,
        };
        let res = Userset {
            this,
            computed_userset,
            tuple_to_userset,
            union,
            intersection,
            difference,
        };
        assert(res.shape() =~= self.shape());
        res
    }
}

} // verus!
