use openfga::models::{
    Assertion, AssertionTupleKey, Condition, ConditionParamTypeRef, ExpandResponse, NullValue,
    TypeName, Userset, WriteRequest, WriteResponse,
};
use openfga::models::{
    Leaf, Node, Nodes, ObjectRelation, Users, UsersetTree, UsersetTreeDifference, Usersets,
    V1PeriodDifference,
};

#[test]
fn assertion_new_sets_fields() {
    let key = AssertionTupleKey::new(
        "document:1".to_string(),
        "viewer".to_string(),
        "user:anne".to_string(),
    );
    let a = Assertion::new(key.clone(), true);
    assert_eq!(*a.tuple_key, key);
    assert!(a.expectation);
    let b = Assertion::new(key, false);
    assert!(!b.expectation);
}

#[test]
fn assertion_tuple_key_new_sets_fields() {
    let key = AssertionTupleKey::new("o".to_string(), "r".to_string(), "u".to_string());
    assert_eq!(key.object, "o");
    assert_eq!(key.relation, "r");
    assert_eq!(key.user, "u");
}

#[test]
fn condition_new_leaves_optional_fields_empty() {
    let c = Condition::new("is_weekday".to_string(), "day < 5".to_string());
    assert_eq!(c.name, "is_weekday");
    assert_eq!(c.expression, "day < 5");
    assert!(c.parameters.is_none());
    assert!(c.metadata.is_none());
}

#[test]
fn condition_param_type_ref_new() {
    let p = ConditionParamTypeRef::new(TypeName::TypeNameList);
    assert_eq!(p.param_type, TypeName::TypeNameList);
    assert!(p.generic_types.is_none());
}

#[test]
fn expand_response_new_is_empty() {
    let r = ExpandResponse::new();
    assert!(r.tree.is_none());
    assert_eq!(r, ExpandResponse::default());
}

#[test]
fn userset_new_is_empty() {
    let u = Userset::new();
    assert!(u.this.is_none());
    assert!(u.computed_userset.is_none());
    assert!(u.tuple_to_userset.is_none());
    assert!(u.union.is_none());
    assert!(u.intersection.is_none());
    assert!(u.difference.is_none());
    assert_eq!(u, Userset::default());
}

#[test]
fn write_request_new_is_empty() {
    let w = WriteRequest::new();
    assert!(w.writes.is_none());
    assert!(w.deletes.is_none());
    assert!(w.authorization_model_id.is_none());
    assert_eq!(w, WriteRequest::default());
}

#[test]
fn write_response_default() {
    let _w: WriteResponse = WriteResponse::default();
}

#[test]
fn null_value_to_string() {
    assert_eq!(NullValue::NullValue.to_string(), "NULL_VALUE");
}

#[test]
fn null_value_default() {
    assert_eq!(NullValue::default(), NullValue::NullValue);
}

#[test]
fn type_name_default_is_unspecified() {
    assert_eq!(TypeName::default(), TypeName::TypeNameUnspecified);
}

#[test]
fn clone_of_nested_userset_is_equal() {
    let mut leaf = Userset::new();
    leaf.computed_userset = Some(Box::new(ObjectRelation {
        object: Some("doc:1".to_string()),
        relation: Some("viewer".to_string()),
    }));
    leaf.this = Some(serde_json::Value::Object(serde_json::Map::new()));
    let mut root = Userset::new();
    root.union = Some(Box::new(Usersets { child: vec![leaf.clone(), Userset::new()] }));
    root.difference = Some(Box::new(V1PeriodDifference {
        base: Box::new(leaf.clone()),
        subtract: Box::new(Userset::new()),
    }));
    assert_eq!(root.clone(), root);
}

#[test]
fn clone_of_nested_param_type_is_equal() {
    let mut inner = ConditionParamTypeRef::new(TypeName::TypeNameString);
    inner.generic_types = Some(vec![]);
    let mut outer = ConditionParamTypeRef::new(TypeName::TypeNameMap);
    outer.generic_types = Some(vec![inner, ConditionParamTypeRef::new(TypeName::TypeNameInt)]);
    assert_eq!(outer.clone(), outer);
}

#[test]
fn clone_of_expand_tree_is_equal() {
    let leaf = Node {
        name: "doc:1#viewer".to_string(),
        leaf: Some(Box::new(Leaf {
            users: Some(Box::new(Users { users: vec!["user:anne".to_string()] })),
            computed: None,
            tuple_to_userset: None,
        })),
        difference: None,
        union: None,
        intersection: None,
    };
    let root = Node {
        name: "doc:1#editor".to_string(),
        leaf: None,
        difference: Some(Box::new(UsersetTreeDifference {
            base: Box::new(leaf.clone()),
            subtract: Box::new(leaf.clone()),
        })),
        union: Some(Box::new(Nodes { nodes: vec![leaf.clone(), leaf] })),
        intersection: None,
    };
    let mut r = ExpandResponse::new();
    r.tree = Some(Box::new(UsersetTree { root: Some(Box::new(root)) }));
    assert_eq!(r.clone(), r);
}

#[test]
fn clone_of_leaf_with_lists_is_equal() {
    let leaf = Leaf {
        users: Some(Box::new(Users { users: vec!["user:anne".to_string(), "user:bob".to_string()] })),
        computed: Some(Box::new(openfga::models::Computed { userset: "doc:1#owner".to_string() })),
        tuple_to_userset: Some(Box::new(openfga::models::UsersetTreeTupleToUserset {
            tupleset: "doc:1#parent".to_string(),
            computed: vec![openfga::models::Computed { userset: "folder:x#viewer".to_string() }],
        })),
    };
    assert_eq!(leaf.clone(), leaf);
}
