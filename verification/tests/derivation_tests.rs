use mergable::derivation::DeriveError;
use mergable::derivation::FieldShape;
use mergable::derivation::MergeBody;
use mergable::derivation::MergePlan;
use mergable::derivation::TypeDescriptor;
use mergable::derivation::TypeShape;
use mergable::derivation::VariantArm;
use mergable::derivation::VariantShape;
use mergable::derivation::derive_plan;

#[test]
fn test_record_plan_in_declaration_order() {
    let desc = TypeDescriptor {
        name: String::from("MergeMe"),
        params: vec![],
        shape: TypeShape::Record(vec![
            FieldShape::Named(String::from("a")),
            FieldShape::Named(String::from("b")),
            FieldShape::Named(String::from("c")),
        ]),
    };
    let plan = derive_plan(desc).unwrap();
    assert_eq!(plan.name, "MergeMe");
    assert!(plan.bounded_params.is_empty());
    assert_eq!(
        plan.body,
        MergeBody::FieldWise(vec![
            FieldShape::Named(String::from("a")),
            FieldShape::Named(String::from("b")),
            FieldShape::Named(String::from("c")),
        ])
    );
}

#[test]
fn test_tuple_record_plan() {
    let desc = TypeDescriptor {
        name: String::from("Pair"),
        params: vec![],
        shape: TypeShape::Record(vec![FieldShape::Indexed(0), FieldShape::Indexed(1)]),
    };
    let plan = derive_plan(desc).unwrap();
    assert_eq!(
        plan.body,
        MergeBody::FieldWise(vec![FieldShape::Indexed(0), FieldShape::Indexed(1)])
    );
}

#[test]
fn test_generic_params_all_bounded() {
    let desc = TypeDescriptor {
        name: String::from("Wrapper"),
        params: vec![String::from("T"), String::from("U")],
        shape: TypeShape::Record(vec![FieldShape::Named(String::from("inner"))]),
    };
    let plan = derive_plan(desc).unwrap();
    assert_eq!(plan.bounded_params, vec![String::from("T"), String::from("U")]);
}

#[test]
fn test_union_plan_arms() {
    let desc = TypeDescriptor {
        name: String::from("Shape"),
        params: vec![],
        shape: TypeShape::TaggedUnion(vec![
            VariantShape::Payload(String::from("A")),
            VariantShape::Unit(String::from("B")),
        ]),
    };
    let plan = derive_plan(desc).unwrap();
    assert_eq!(
        plan,
        MergePlan {
            name: String::from("Shape"),
            bounded_params: vec![],
            body: MergeBody::VariantWise(vec![
                VariantArm::Recurse(String::from("A")),
                VariantArm::Keep(String::from("B")),
            ]),
        }
    );
}

#[test]
fn test_named_fields_variant_is_refused() {
    let desc = TypeDescriptor {
        name: String::from("Mixed"),
        params: vec![],
        shape: TypeShape::TaggedUnion(vec![
            VariantShape::Unit(String::from("Ok")),
            VariantShape::NamedFields(String::from("Bad")),
            VariantShape::NamedFields(String::from("Worse")),
        ]),
    };
    // the diagnostic names the first offending variant
    assert_eq!(
        derive_plan(desc),
        Err(DeriveError::NamedFieldsVariant(String::from("Bad")))
    );
}

#[test]
fn test_untagged_union_is_refused() {
    let desc = TypeDescriptor {
        name: String::from("Raw"),
        params: vec![],
        shape: TypeShape::Untagged,
    };
    assert_eq!(derive_plan(desc), Err(DeriveError::UntaggedUnion));
}
