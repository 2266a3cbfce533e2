use vstd::prelude::*;

verus! {

/// The type of a condition parameter.
#[derive(Clone, Copy, Debug, Eq, PartialEq, Ord, PartialOrd, Hash)]
pub enum TypeName {
    TypeNameUnspecified,
    TypeNameAny,
    TypeNameBool,
    TypeNameString,
    TypeNameInt,
    TypeNameUint,
    TypeNameDouble,
    TypeNameDuration,
    TypeNameTimestamp,
    TypeNameMap,
    TypeNameList,
    TypeNameIpaddress,
}

impl Default for TypeName {
    fn default() -> (res: TypeName)
        ensures
            res == TypeName::TypeNameUnspecified,
    {
        TypeName::TypeNameUnspecified
    }
}

} // verus!
