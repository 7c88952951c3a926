use std::collections::BTreeMap;
use std::collections::HashMap;

use mergable::MergeFrom;
use mergable::compound::MergeMe;
use mergable::compound::PairOf;
use mergable::compound::Point;
use mergable::compound::Scalars;
use mergable::compound::Shape;
use mergable::compound::VecStr;

#[test]
fn test_merge() {
    let mut base = MergeMe {
        a: 42,
        b: None,
        c: vec![1, 2, 3],
        d: Box::new(Some(42)),
        e: None,
    };
    let new = MergeMe {
        a: 0,
        b: Some(8),
        c: vec![3, 2, 1],
        d: Box::new(None),
        e: Some(BTreeMap::new()),
    };
    base.merge_from(&new);
    println!("{:?}", &base)
}

#[test]
fn test_scalars() {
    let mut base = Scalars {
        a: 1,
        b: Some(2),
        c: Box::new(3),
    };
    let new = Scalars {
        a: 3,
        b: None,
        c: Box::new(1),
    };

    let expected = Scalars {
        a: 3,
        b: Some(2),
        c: Box::new(1),
    };

    base.merge_from(&new);
    assert_eq!(base, expected)
}

#[test]
fn test_vec_str() {
    let mut v1 = vec![1, 2, 3];
    let v2 = [3, 2, 1];
    v1.merge_from(&v2);
    println!("{:?}", &v1);
    let mut base = VecStr {
        a: vec![1],
        b: String::from("Hello, "),
    };
    let new = VecStr {
        a: vec![2, 3],
        b: String::from("World"),
    };
    let expected = VecStr {
        a: vec![1, 2, 3],
        b: String::from("Hello, World"),
    };

    base.merge_from(&new);
    assert_eq!(base, expected)
}

#[test]
fn test_merge_expected_fields() {
    let mut base = MergeMe {
        a: 42,
        b: None,
        c: vec![1, 2, 3],
        d: Box::new(Some(42)),
        e: None,
    };
    let new = MergeMe {
        a: 0,
        b: Some(8),
        c: vec![3, 2, 1],
        d: Box::new(None),
        e: Some(BTreeMap::new()),
    };
    base.merge_from(&new);
    assert_eq!(base.a, 0);
    assert_eq!(base.b, Some(8));
    assert_eq!(base.c, vec![1, 2, 3, 3, 2, 1]);
    // an absent incoming optional changes nothing, through the indirection
    assert_eq!(base.d, Box::new(Some(42)));
    assert_eq!(base.e, Some(BTreeMap::new()));
}

#[test]
fn test_scalar_replacement() {
    let mut s: u64 = 11;
    s.merge_from(&7);
    assert_eq!(s, 7);
    let mut b = false;
    b.merge_from(&true);
    assert!(b);
    let mut i: i32 = -4;
    i.merge_from(&9);
    assert_eq!(i, 9);
}

#[test]
fn test_option_rules() {
    let mut none_from_none: Option<u64> = None;
    none_from_none.merge_from(&None);
    assert_eq!(none_from_none, None);

    let mut none_from_some: Option<u64> = None;
    none_from_some.merge_from(&Some(5));
    assert_eq!(none_from_some, Some(5));

    let mut some_from_none: Option<u64> = Some(3);
    some_from_none.merge_from(&None);
    assert_eq!(some_from_none, Some(3));

    let mut some_from_some: Option<u64> = Some(3);
    some_from_some.merge_from(&Some(5));
    assert_eq!(some_from_some, Some(5));

    // both present with structured contents: the contents merge
    let mut nested: Option<Vec<i64>> = Some(vec![1]);
    nested.merge_from(&Some(vec![2, 3]));
    assert_eq!(nested, Some(vec![1, 2, 3]));
}

#[test]
fn test_option_absorbs_bare_value() {
    let mut absent: Option<u64> = None;
    absent.merge_from(&8);
    assert_eq!(absent, Some(8));

    let mut present: Option<Vec<i64>> = Some(vec![1]);
    present.merge_from(&vec![2]);
    assert_eq!(present, Some(vec![1, 2]));
}

#[test]
fn test_sequence_append() {
    let mut a: Vec<u64> = vec![1, 2];
    let b: Vec<u64> = vec![2, 9];
    a.merge_from(&b);
    assert_eq!(a, vec![1, 2, 2, 9]);

    let mut empty: Vec<u64> = vec![];
    empty.merge_from(&vec![4]);
    assert_eq!(empty, vec![4]);

    let mut left: Vec<u64> = vec![4];
    left.merge_from(&Vec::new());
    assert_eq!(left, vec![4]);

    let s: &[u64] = &[7, 8];
    let mut from_slice: Vec<u64> = vec![6];
    from_slice.merge_from(&s);
    assert_eq!(from_slice, vec![6, 7, 8]);
}

#[test]
fn test_text_append() {
    let mut t = String::from("Hello, ");
    t.merge_from(&String::from("World"));
    assert_eq!(t, "Hello, World");

    let mut empty = String::new();
    empty.merge_from(&String::from("x"));
    assert_eq!(empty, "x");

    let mut s = String::from("a");
    s.merge_from(&"bc");
    assert_eq!(s, "abc");
}

#[test]
fn test_box_merges_contents() {
    let mut b: Box<u64> = Box::new(3);
    b.merge_from(&Box::new(1));
    assert_eq!(*b, 1);

    let mut bv: Box<Vec<i64>> = Box::new(vec![1]);
    bv.merge_from(&vec![2]);
    assert_eq!(*bv, vec![1, 2]);
}

#[test]
fn test_map_union() {
    let mut a: BTreeMap<u64, String> = BTreeMap::new();
    a.insert(1, String::from("a"));
    a.insert(2, String::from("b"));
    let mut b: BTreeMap<u64, String> = BTreeMap::new();
    b.insert(2, String::from("c"));
    b.insert(3, String::from("d"));

    a.merge_from(&b);

    // key only in self: untouched; shared key: values merged (text
    // appends); key only in other: copied in
    assert_eq!(a.get(&1), Some(&String::from("a")));
    assert_eq!(a.get(&2), Some(&String::from("bc")));
    assert_eq!(a.get(&3), Some(&String::from("d")));
    assert_eq!(a.len(), 3);
}

#[test]
fn test_map_empty_sides() {
    let mut a: BTreeMap<u64, u64> = BTreeMap::new();
    a.insert(1, 10);
    a.merge_from(&BTreeMap::new());
    assert_eq!(a.len(), 1);
    assert_eq!(a.get(&1), Some(&10));

    let mut empty: BTreeMap<u64, u64> = BTreeMap::new();
    let mut b: BTreeMap<u64, u64> = BTreeMap::new();
    b.insert(2, 20);
    empty.merge_from(&b);
    assert_eq!(empty.len(), 1);
    assert_eq!(empty.get(&2), Some(&20));
}

#[test]
fn test_map_single_pair() {
    let mut m: BTreeMap<u64, String> = BTreeMap::new();
    m.insert(1, String::from("x"));

    // new key: upsert
    m.merge_from(&(2, String::from("y")));
    assert_eq!(m.get(&2), Some(&String::from("y")));

    // existing key: merge the values
    m.merge_from(&(1, String::from("z")));
    assert_eq!(m.get(&1), Some(&String::from("xz")));
    assert_eq!(m.len(), 2);
}

#[test]
fn test_shape_union() {
    let mut mismatch = Shape::A(5);
    mismatch.merge_from(&Shape::B);
    assert_eq!(mismatch, Shape::B);

    let mut same = Shape::A(5);
    same.merge_from(&Shape::A(7));
    assert_eq!(same, Shape::A(7));

    let mut unit = Shape::B;
    unit.merge_from(&Shape::B);
    assert_eq!(unit, Shape::B);

    let mut back = Shape::B;
    back.merge_from(&Shape::A(3));
    assert_eq!(back, Shape::A(3));
}

#[test]
fn test_merge_with_custom_rule() {
    let mut x: u64 = 3;
    x.merge_with(&4, |a: &u64, b: &u64| *a + *b);
    assert_eq!(x, 7);

    // the custom rule overrides the type's own: text kept, not appended
    let mut t = String::from("keep");
    t.merge_with(&String::from("drop"), |a: &String, _b: &String| a.clone());
    assert_eq!(t, "keep");
}

#[test]
fn test_hash_map_union() {
    let mut a: HashMap<u64, String> = HashMap::new();
    a.insert(1, String::from("a"));
    a.insert(2, String::from("b"));
    let mut b: HashMap<u64, String> = HashMap::new();
    b.insert(2, String::from("c"));
    b.insert(3, String::from("d"));

    a.merge_from(&b);

    assert_eq!(a.get(&1), Some(&String::from("a")));
    assert_eq!(a.get(&2), Some(&String::from("bc")));
    assert_eq!(a.get(&3), Some(&String::from("d")));
    assert_eq!(a.len(), 3);
}

#[test]
fn test_tuple_record() {
    let mut p = Point(1, 2);
    p.merge_from(&Point(3, 4));
    assert_eq!(p, Point(3, 4));
}

#[test]
fn test_generic_record() {
    let mut p = PairOf {
        first: vec![1i64],
        second: vec![2i64],
    };
    let q = PairOf {
        first: vec![3i64],
        second: vec![4i64],
    };
    p.merge_from(&q);
    assert_eq!(p.first, vec![1, 3]);
    assert_eq!(p.second, vec![2, 4]);
}
