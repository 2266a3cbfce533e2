pub mod assertion;
pub use self::assertion::Assertion;
pub mod assertion_tuple_key;
pub use self::assertion_tuple_key::AssertionTupleKey;
pub mod computed;
pub use self::computed::Computed;
pub mod condition;
pub use self::condition::Condition;
pub mod condition_metadata;
pub use self::condition_metadata::ConditionMetadata;
pub mod condition_param_type_ref;
pub use self::condition_param_type_ref::ConditionParamTypeRef;
pub mod expand_response;
pub use self::expand_response::ExpandResponse;
pub mod leaf;
pub use self::leaf::{Leaf, LeafShape};
pub mod node;
pub use self::node::{Node, NodeShape};
pub mod nodes;
pub use self::nodes::Nodes;
pub mod null_value;
pub use self::null_value::NullValue;
pub mod object_relation;
pub use self::object_relation::ObjectRelation;
pub mod relationship_condition;
pub use self::relationship_condition::RelationshipCondition;
pub mod source_info;
pub use self::source_info::SourceInfo;
pub mod tuple_key;
pub use self::tuple_key::TupleKey;
pub mod tuple_key_without_condition;
pub use self::tuple_key_without_condition::TupleKeyWithoutCondition;
pub mod parameter_type;
pub use self::parameter_type::TypeName;
pub mod users;
pub use self::users::Users;
pub mod userset;
pub use self::userset::{Userset, UsersetShape};
pub mod userset_tree;
pub use self::userset_tree::UsersetTree;
pub mod userset_tree_difference;
pub use self::userset_tree_difference::UsersetTreeDifference;
pub mod userset_tree_tuple_to_userset;
pub use self::userset_tree_tuple_to_userset::UsersetTreeTupleToUserset;
pub mod usersets;
pub use self::usersets::Usersets;
pub mod v1_period_difference;
pub use self::v1_period_difference::V1PeriodDifference;
pub mod v1_period_tuple_to_userset;
pub use self::v1_period_tuple_to_userset::V1PeriodTupleToUserset;
pub mod write_request;
pub use self::write_request::WriteRequest;
pub mod write_request_deletes;
pub use self::write_request_deletes::WriteRequestDeletes;
pub mod write_request_writes;
pub use self::write_request_writes::WriteRequestWrites;
pub mod write_response;
pub use self::write_response::WriteResponse;
