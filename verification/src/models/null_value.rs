use vstd::prelude::*;

verus! {

/// `NullValue` is a singleton enumeration to represent the null value for the
/// `Value` type union.  The JSON representation for `NullValue` is JSON `null`.
///   - NULL_VALUE: Null value.
#[derive(Clone, Copy, Debug, Eq, PartialEq, Ord, PartialOrd, Hash)]
pub enum NullValue {
    NullValue,
}

impl NullValue {
    /// The wire name of the variant.
    pub open spec fn wire_name(self) -> Seq<char> {
        match self {
            NullValue::NullValue => "NULL_VALUE"@,
        }
    }

    /// The wire name of the variant, `NULL_VALUE`.
    pub fn to_string(&self) -> (res: String)
        ensures
            res@ == self.wire_name(),
    {
        match self {
            NullValue::NullValue => "NULL_VALUE".to_owned(),
        }
    }
}

impl Default for NullValue {
    fn default() -> (res: NullValue)
        ensures
            res == NullValue::NullValue,
    {
        NullValue::NullValue
    }
}

} // verus!
