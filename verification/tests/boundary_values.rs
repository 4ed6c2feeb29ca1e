use wasm_react::BoundaryValue;
use wasm_react::VNode;

#[test]
fn int_round_trip() {
    let v = BoundaryValue::from_int(42);
    assert_eq!(v.as_int(), Some(42));
    assert_eq!(v.as_bool(), None);
    assert_eq!(v.as_text(), None);
}

#[test]
fn bool_round_trip() {
    let v = BoundaryValue::from_bool(true);
    assert_eq!(v.as_bool(), Some(true));
    assert_eq!(v.as_int(), None);
}

#[test]
fn text_round_trip() {
    let v = BoundaryValue::from_text(String::from("hello"));
    assert_eq!(v.as_text(), Some(&String::from("hello")));
    assert_eq!(v.as_int(), None);
}

#[test]
fn nothing_values() {
    assert!(BoundaryValue::Null.is_nothing());
    assert!(BoundaryValue::Undefined.is_nothing());
    assert!(!BoundaryValue::from_int(0).is_nothing());
    assert!(!BoundaryValue::from_text(String::new()).is_nothing());
}

#[test]
fn integer_becomes_decimal_text_node() {
    match VNode::from_int(42) {
        VNode::Text(t) => assert_eq!(t, "42"),
        other => panic!("expected a text node, got {:?}", other),
    }
}

#[test]
fn decimal_rendering_exact_values() {
    let cases: Vec<(i64, &str)> = vec![
        (0, "0"),
        (7, "7"),
        (10, "10"),
        (42, "42"),
        (-1, "-1"),
        (-305, "-305"),
        (i64::MAX, "9223372036854775807"),
        (i64::MIN, "-9223372036854775808"),
    ];
    for (n, expected) in cases {
        match VNode::from_int(n) {
            VNode::Text(t) => assert_eq!(t, expected),
            other => panic!("expected a text node, got {:?}", other),
        }
    }
}

#[test]
fn boundary_value_to_node() {
    match VNode::from_boundary(&BoundaryValue::from_text(String::from("hi"))) {
        VNode::Text(t) => assert_eq!(t, "hi"),
        other => panic!("expected a text node, got {:?}", other),
    }
    match VNode::from_boundary(&BoundaryValue::from_int(-3)) {
        VNode::Text(t) => assert_eq!(t, "-3"),
        other => panic!("expected a text node, got {:?}", other),
    }
    assert_eq!(VNode::from_boundary(&BoundaryValue::Null), VNode::Empty);
    assert_eq!(VNode::from_boundary(&BoundaryValue::Undefined), VNode::Empty);
    assert_eq!(VNode::from_boundary(&BoundaryValue::from_bool(true)), VNode::Empty);
}

#[test]
fn empty_node() {
    assert_eq!(VNode::empty(), VNode::Empty);
}
