use vstd::prelude::*;

use crate::models;

verus! {

#[derive(Default, Debug, PartialEq)]
pub struct ConditionParamTypeRef {
    /// The parameter's type; called `type_name` on the wire.
    pub param_type: models::TypeName,
    pub generic_types: Option<Vec<models::ConditionParamTypeRef>>,
}

impl ConditionParamTypeRef {
    pub fn new(param_type: models::TypeName) -> (res: ConditionParamTypeRef)
        ensures
            res.param_type == param_type,
            res.generic_types is None,
    {
        ConditionParamTypeRef { param_type, generic_types: None }
    }

    /// The parameter type with all its nested generic types, by value.
    pub open spec fn shape(self) -> TypeShape
        decreases self,
    {
        TypeShape {
            param_type: self.param_type,
            generic_types: match self.generic_types {
                Some(v) => Some(
                    Seq::new(v@.len(), |i: int| if 0 <= i < v@.len() { v@[i].shape() } else { arbitrary() }),
                ),
                None => None,
            },
        }
    }
}

/// A parameter type and its nested generic types as a mathematical value.
pub ghost struct TypeShape {
    pub param_type: models::TypeName,
    pub generic_types: Option<Seq<TypeShape>>,
}

impl Clone for ConditionParamTypeRef {
    fn clone(&self) -> (res: Self)
        ensures
            res.shape() == self.shape(),
        decreases self,
    {
        let generic_types = match &self.generic_types {
            None => None,
            Some(v) => {
                let mut out: Vec<ConditionParamTypeRef> = Vec::new();
                let mut i: usize = 0;
                while i < v.len()
                    invariant
                        i <= v.len(),
                        out@.len() == i,
                        self.generic_types == Some(*v),
                        forall|j: int| 0 <= j < i ==> (#[trigger] out@[j]).shape() == v@[j].shape(),
                    decreases v.len() - i,
                {
                    proof {
                        vstd::std_specs::vec::axiom_vec_index_decreases(*v, i as int);
                        assert(decreases_to!(*self => self.generic_types));
                        assert(decreases_to!(self.generic_types => self.generic_types->0));
                    }
                    let item = v[i].clone();
                    out.push(item);
                    i += 1;
                }
                Some(out)
            },
        };
        let res = ConditionParamTypeRef { param_type: self.param_type, generic_types };
        assert(res.shape().generic_types =~= self.shape().generic_types);
        res
    }
}

} // verus!
