use wasm_react::AdapterError;
use wasm_react::App;
use wasm_react::BoundaryValue;
use wasm_react::Counter;
use wasm_react::Props;
use wasm_react::VNode;
use wasm_react::VNodeList;
use wasm_react::create_element;
use wasm_react::export_app;
use wasm_react::hooks::SlotArena;
use wasm_react::hooks::use_js_ref;

#[test]
fn props_last_insert_wins() {
    let props = Props::new()
        .insert(String::from("a"), BoundaryValue::from_int(1))
        .insert(String::from("b"), BoundaryValue::from_int(2))
        .insert(String::from("a"), BoundaryValue::from_int(3));
    assert_eq!(props.get(&String::from("a")), Some(&BoundaryValue::Int(3)));
    assert_eq!(props.get(&String::from("b")), Some(&BoundaryValue::Int(2)));
    assert_eq!(props.get(&String::from("c")), None);
    assert_eq!(props.len(), 3);
}

#[test]
fn node_list_keeps_order() {
    let mut list = VNodeList::new();
    list.push(VNode::text(String::from("one")));
    list.push(VNode::text(String::from("two")));
    let mut more = VNodeList::new();
    more.push(VNode::text(String::from("three")));
    list.extend(more);
    assert_eq!(list.len(), 3);
    assert_eq!(*list.get(0), VNode::Text(String::from("one")));
    assert_eq!(*list.get(2), VNode::Text(String::from("three")));
}

#[test]
fn create_element_passes_everything_through() {
    let props = Props::new().insert(String::from("id"), BoundaryValue::from_text(
        String::from("app"),
    ));
    let mut children = VNodeList::new();
    children.push(VNode::text(String::from("Hello")));
    let node = create_element(String::from("div"), props, children);
    match node {
        VNode::Element { element_type, props, children } => {
            assert_eq!(element_type, "div");
            assert_eq!(
                props.get(&String::from("id")),
                Some(&BoundaryValue::Text(String::from("app")))
            );
            assert_eq!(children.len(), 1);
        },
        other => panic!("expected an element, got {:?}", other),
    }
}

#[test]
fn app_conversion_requires_the_diff_property() {
    let missing = Props::new();
    assert_eq!(App::try_from(&missing).unwrap_err(), AdapterError::MissingProperty);

    let wrong = Props::new().insert(String::from("diff"), BoundaryValue::from_text(
        String::from("5"),
    ));
    assert_eq!(App::try_from(&wrong).unwrap_err(), AdapterError::MismatchedShape);

    let too_big = Props::new().insert(String::from("diff"), BoundaryValue::from_int(i64::MAX));
    assert_eq!(App::try_from(&too_big).unwrap_err(), AdapterError::MismatchedShape);

    let good = Props::new().insert(String::from("diff"), BoundaryValue::from_int(5));
    assert_eq!(App::try_from(&good).unwrap(), App { diff: 5 });
}

#[test]
fn counter_conversion_and_render_shape() {
    let props = Props::new().insert(String::from("counter"), BoundaryValue::from_int(-12));
    let counter = Counter::try_from(&props).unwrap();
    assert_eq!(counter, Counter { counter: -12 });

    match counter.render() {
        VNode::Element { element_type, children, .. } => {
            assert_eq!(element_type, "div");
            assert_eq!(children.len(), 3);
            assert_eq!(*children.get(1), VNode::Text(String::from("-12")));
        },
        other => panic!("expected an element, got {:?}", other),
    }
}

#[test]
fn exported_app_surfaces_conversion_failure() {
    let mut arena = SlotArena::new();
    let bad = Props::new();
    match export_app(&bad, &mut arena, None) {
        Err(err) => assert_eq!(err, AdapterError::MissingProperty),
        Ok(_) => panic!("conversion without the diff property must fail"),
    }

    let good = Props::new().insert(String::from("diff"), BoundaryValue::from_int(2));
    let (state, node) = export_app(&good, &mut arena, None).unwrap();
    assert_eq!(state.current(&arena).counter, 11);
    match node {
        VNode::Element { element_type, props, children } => {
            assert_eq!(element_type, "div");
            assert_eq!(props.get(&String::from("data-counter")), Some(&BoundaryValue::Int(11)));
            assert_eq!(children.len(), 2);
            match children.get(0) {
                VNode::Element { element_type, children, .. } => {
                    assert_eq!(element_type, "h2");
                    assert_eq!(*children.get(0), VNode::Text(String::from("Counter: ")));
                    assert_eq!(*children.get(1), VNode::Text(String::from("11")));
                },
                other => panic!("expected an element, got {:?}", other),
            }
            match children.get(1) {
                VNode::Component { name, props } => {
                    assert_eq!(*name, String::from("Counter"));
                    assert_eq!(
                        props.get(&String::from("counter")),
                        Some(&BoundaryValue::Int(11))
                    );
                },
                other => panic!("expected a component, got {:?}", other),
            }
        },
        other => panic!("expected an element, got {:?}", other),
    }
}

#[test]
fn node_list_from_already_built_nodes() {
    let nodes = vec![
        VNode::text(String::from("first")),
        VNode::text(String::from("second")),
        VNode::Empty,
    ];
    let list = VNodeList::from_vec(nodes);
    assert_eq!(list.len(), 3);
    assert_eq!(*list.get(0), VNode::Text(String::from("first")));
    assert_eq!(*list.get(2), VNode::Empty);
}

#[test]
fn js_ref_holds_host_values() {
    let mut arena: SlotArena<Option<BoundaryValue>> = SlotArena::new();
    let handle = use_js_ref(&mut arena, None, None);
    assert_eq!(*handle.current(&arena), None);

    handle.set_current(&mut arena, Some(BoundaryValue::from_text(String::from("element"))));
    assert_eq!(
        *handle.current(&arena),
        Some(BoundaryValue::Text(String::from("element")))
    );

    // A later render hands back the same reference container.
    let again = use_js_ref(&mut arena, Some(handle), None);
    assert_eq!(
        *again.current(&arena),
        Some(BoundaryValue::Text(String::from("element")))
    );
}
