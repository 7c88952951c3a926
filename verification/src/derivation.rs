//! Building a merge plan from a compound type's shape.
//!
//! A shape descriptor lists a record's fields in declaration order, or
//! a tagged union's variants. From it, [`derive_plan`] builds the plan
//! a structural merge implementation follows: one step per record
//! field, in declaration order, or one arm per variant. Every type
//! parameter receives a merge-capability bound, so the recursion into
//! fields of parameter type is well-formed.
//!
//! Unsupported shapes — a variant with named fields, or an untagged
//! union — yield an error naming the offender; no partial plan is ever
//! produced.

use vstd::prelude::*;

verus! {

/// The shape of one record field: its name, or its position within a
/// tuple-like record.
#[derive(Debug, PartialEq)]
pub enum FieldShape {
    Named(String),
    Indexed(usize),
}

/// The shape of one tagged-union variant: carrying one unnamed
/// payload, carrying nothing, or carrying named fields (which no merge
/// can be built for).
#[derive(Debug, PartialEq)]
pub enum VariantShape {
    Payload(String),
    Unit(String),
    NamedFields(String),
}

/// The shape of a compound type: a record of fields, a tagged union of
/// variants, or an untagged union (which no merge can be built for).
#[derive(Debug, PartialEq)]
pub enum TypeShape {
    Record(Vec<FieldShape>),
    TaggedUnion(Vec<VariantShape>),
    Untagged,
}

/// A compound type's shape descriptor: its name, its type parameters
/// in order, and its shape.
#[derive(Debug, PartialEq)]
pub struct TypeDescriptor {
    pub name: String,
    pub params: Vec<String>,
    pub shape: TypeShape,
}

/// One arm of a variant-wise merge: on matching variants, either
/// recurse into the payload or keep the receiver as it is; any
/// mismatch replaces the receiver wholesale.
#[derive(Debug, PartialEq)]
pub enum VariantArm {
    Recurse(String),
    Keep(String),
}

/// The body of a generated merge: one step per record field, in
/// declaration order, or one arm per variant.
#[derive(Debug, PartialEq)]
pub enum MergeBody {
    FieldWise(Vec<FieldShape>),
    VariantWise(Vec<VariantArm>),
}

/// A complete merge plan: the type it is for, the type parameters that
/// receive a merge-capability bound — all of them, in order — and the
/// body.
#[derive(Debug, PartialEq)]
pub struct MergePlan {
    pub name: String,
    pub bounded_params: Vec<String>,
    pub body: MergeBody,
}

/// Why no plan could be built: a variant with named fields, by name,
/// or an untagged union.
#[derive(Debug, PartialEq)]
pub enum DeriveError {
    NamedFieldsVariant(String),
    UntaggedUnion,
}

/// The arm a supported variant compiles to: payload variants recurse,
/// unit variants keep the receiver.
pub open spec fn arm_of(v: VariantShape) -> VariantArm {
    match v {
        VariantShape::Payload(n) => VariantArm::Recurse(n),
        VariantShape::Unit(n) => VariantArm::Keep(n),
        VariantShape::NamedFields(n) => VariantArm::Keep(n),
    }
}

/// The arms a sequence of variants compiles to, one each, in order.
pub open spec fn arms_of(vs: Seq<VariantShape>) -> Seq<VariantArm> {
    vs.map_values(|v: VariantShape| arm_of(v))
}

/// Whether a variant's shape is one a merge can be built for.
pub open spec fn variant_supported(v: VariantShape) -> bool {
    !(v is NamedFields)
}

/// Whether every variant's shape is one a merge can be built for.
pub open spec fn all_variants_supported(vs: Seq<VariantShape>) -> bool {
    forall|i: int| 0 <= i < vs.len() ==> variant_supported(#[trigger] vs[i])
}

/// The name a variant was declared under.
pub open spec fn variant_name(v: VariantShape) -> String {
    match v {
        VariantShape::Payload(n) => n,
        VariantShape::Unit(n) => n,
        VariantShape::NamedFields(n) => n,
    }
}

/// `i` is the position of the first unsupported variant.
pub open spec fn first_unsupported(vs: Seq<VariantShape>, i: int) -> bool {
    &&& 0 <= i < vs.len()
    &&& !variant_supported(vs[i])
    &&& forall|j: int| 0 <= j < i ==> variant_supported(#[trigger] vs[j])
}

/// Find the first variant no merge can be built for, if any.
fn find_unsupported(variants: &Vec<VariantShape>) -> (r: Option<usize>)
    ensures
        match r {
            Some(i) => first_unsupported(variants@, i as int),
            None => all_variants_supported(variants@),
        },
{
    let mut i: usize = 0;
    while i < variants.len()
        invariant
            i <= variants.len(),
            forall|j: int| 0 <= j < i ==> variant_supported(#[trigger] variants@[j]),
        decreases variants.len() - i,
    {
        match &variants[i] {
            VariantShape::NamedFields(_) => {
                return Some(i);
            },
            _ => {},
        }
        i = i + 1;
    }
    None
}

/// Copy the field shapes into the steps of a field-wise plan, one per
/// field, in declaration order.
fn record_steps(fields: &Vec<FieldShape>) -> (steps: Vec<FieldShape>)
    ensures
        steps@ == fields@,
{
    let mut steps: Vec<FieldShape> = Vec::new();
    let mut i: usize = 0;
    while i < fields.len()
        invariant
            i <= fields.len(),
            steps@ == fields@.take(i as int),
        decreases fields.len() - i,
    {
        match &fields[i] {
            FieldShape::Named(n) => {
                steps.push(FieldShape::Named(n.clone()));
            },
            FieldShape::Indexed(k) => {
                steps.push(FieldShape::Indexed(*k));
            },
        }
        proof {
            assert(steps@ =~= fields@.take(i as int + 1));
        }
        i = i + 1;
    }
    proof {
        assert(steps@ =~= fields@);
    }
    steps
}

/// Compile each variant to its arm, in order.
///
/// Every variant must be supported; the caller checks first.
fn union_arms(variants: &Vec<VariantShape>) -> (arms: Vec<VariantArm>)
    requires
        all_variants_supported(variants@),
    ensures
        arms@ == arms_of(variants@),
{
    let mut arms: Vec<VariantArm> = Vec::new();
    let mut i: usize = 0;
    while i < variants.len()
        invariant
            i <= variants.len(),
            all_variants_supported(variants@),
            arms@ == arms_of(variants@.take(i as int)),
        decreases variants.len() - i,
    {
        match &variants[i] {
            VariantShape::Payload(n) => {
                arms.push(VariantArm::Recurse(n.clone()));
            },
            VariantShape::Unit(n) => {
                arms.push(VariantArm::Keep(n.clone()));
            },
            VariantShape::NamedFields(_) => {
                proof {
                    assert(variant_supported(variants@[i as int]));
                }
            },
        }
        proof {
            assert(arms@ =~= arms_of(variants@.take(i as int + 1)));
        }
        i = i + 1;
    }
    proof {
        assert(arms@ =~= arms_of(variants@));
    }
    arms
}

/// Build the merge plan for a compound type from its shape descriptor.
///
/// A record always yields a field-wise plan with one step per field,
/// in declaration order. A tagged union yields a variant-wise plan
/// exactly when every variant is unit or single-payload; otherwise the
/// error names the first variant with named fields. An untagged union
/// is always refused. Every type parameter is bounded, in order.
pub fn derive_plan(desc: TypeDescriptor) -> (r: Result<MergePlan, DeriveError>)
    ensures
        (match desc.shape {
            TypeShape::Record(fields) => match r {
                Ok(p) => {
                    &&& p.name == desc.name
                    &&& p.bounded_params == desc.params
                    &&& p.body matches MergeBody::FieldWise(steps) && steps@ == fields@
                },
                Err(_) => false,
            },
            _ => true,
        }),
        (match desc.shape {
            TypeShape::TaggedUnion(variants) => {
                if all_variants_supported(variants@) {
                    match r {
                        Ok(p) => {
                            &&& p.name == desc.name
                            &&& p.bounded_params == desc.params
                            &&& p.body matches MergeBody::VariantWise(arms) && arms@ == arms_of(
                                variants@,
                            )
                        },
                        Err(_) => false,
                    }
                } else {
                    match r {
                        Ok(_) => false,
                        Err(e) => forall|i: int| #[trigger]
                            first_unsupported(variants@, i) ==> e
                                == DeriveError::NamedFieldsVariant(variant_name(variants@[i])),
                    }
                }
            },
            _ => true,
        }),
        desc.shape is Untagged ==> r == Err::<MergePlan, DeriveError>(DeriveError::UntaggedUnion),
{
    let TypeDescriptor { name, params, shape } = desc;
    match shape {
        TypeShape::Record(fields) => {
            let steps = record_steps(&fields);
            Ok(MergePlan { name, bounded_params: params, body: MergeBody::FieldWise(steps) })
        },
        TypeShape::TaggedUnion(variants) => {
            match find_unsupported(&variants) {
                Some(i) => {
                    let offender = match &variants[i] {
                        VariantShape::Payload(n) => n.clone(),
                        VariantShape::Unit(n) => n.clone(),
                        VariantShape::NamedFields(n) => n.clone(),
                    };
                    proof {
                        assert(!all_variants_supported(variants@));
                        assert forall|ii: int| #[trigger]
                            first_unsupported(variants@, ii) implies ii == i as int by {
                            assert(variant_supported(variants@[i as int]) || !(ii < i as int));
                            assert(ii <= i as int);
                        }
                        assert(offender == variant_name(variants@[i as int]));
                    }
                    Err(DeriveError::NamedFieldsVariant(offender))
                },
                None => {
                    let arms = union_arms(&variants);
                    Ok(
                        MergePlan {
                            name,
                            bounded_params: params,
                            body: MergeBody::VariantWise(arms),
                        },
                    )
                },
            }
        },
        TypeShape::Untagged => Err(DeriveError::UntaggedUnion),
    }
}

} // verus!
