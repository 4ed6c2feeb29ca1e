use std::rc::Rc;
use wasm_react::ContextProvider;
use wasm_react::ContextRegistry;
use wasm_react::create_context;
use wasm_react::hooks::use_context;

#[test]
fn reader_without_provider_sees_initial_value() {
    let mut reg: ContextRegistry<i32> = ContextRegistry::new();
    let ctx = create_context(&mut reg, Rc::new(10));
    assert_eq!(*use_context(&reg, &ctx), 10);
}

#[test]
fn reader_under_two_providers_sees_the_nearer_value() {
    let mut reg: ContextRegistry<&str> = ContextRegistry::new();
    let ctx = create_context(&mut reg, Rc::new("initial"));

    let outer = reg.provider_enter(&ctx, Some(Rc::new("outer")));
    let inner = reg.provider_enter(&ctx, Some(Rc::new("inner")));
    assert_eq!(*use_context(&reg, &ctx), "inner");

    reg.provider_exit(&ctx, inner);
    reg.provider_exit(&ctx, outer);
    assert_eq!(*use_context(&reg, &ctx), "initial");
}

#[test]
fn sibling_outside_inner_provider_observes_outer_value() {
    // Provider supplies A; a child provider overrides with B for its own
    // subtree; a grandchild outside the inner subtree still observes A.
    let mut reg: ContextRegistry<char> = ContextRegistry::new();
    let ctx = create_context(&mut reg, Rc::new('i'));

    let outer = reg.provider_enter(&ctx, Some(Rc::new('A')));
    let inner = reg.provider_enter(&ctx, Some(Rc::new('B')));
    assert_eq!(*use_context(&reg, &ctx), 'B');
    reg.provider_exit(&ctx, inner);

    // Back under the outer provider only.
    assert_eq!(*use_context(&reg, &ctx), 'A');
    reg.provider_exit(&ctx, outer);
}

#[test]
fn provider_without_value_lets_enclosing_value_show_through() {
    let mut reg: ContextRegistry<u64> = ContextRegistry::new();
    let ctx = create_context(&mut reg, Rc::new(1));
    let outer = reg.provider_enter(&ctx, Some(Rc::new(2)));
    let inner = reg.provider_enter(&ctx, None);
    assert!(!inner);
    assert_eq!(*use_context(&reg, &ctx), 2);
    reg.provider_exit(&ctx, inner);
    reg.provider_exit(&ctx, outer);
    assert_eq!(*use_context(&reg, &ctx), 1);
}

#[test]
fn reader_keeps_payload_alive_after_provider_leaves() {
    let mut reg: ContextRegistry<String> = ContextRegistry::new();
    let ctx = create_context(&mut reg, Rc::new(String::from("init")));
    let pushed = reg.provider_enter(&ctx, Some(Rc::new(String::from("shared"))));
    let seen = use_context(&reg, &ctx);
    reg.provider_exit(&ctx, pushed);
    // The reader still owns the payload it looked up.
    assert_eq!(*seen, "shared");
    assert_eq!(*use_context(&reg, &ctx), "init");
}

#[test]
fn independent_cells_do_not_interfere() {
    let mut reg: ContextRegistry<i32> = ContextRegistry::new();
    let first = create_context(&mut reg, Rc::new(1));
    let second = create_context(&mut reg, Rc::new(2));
    let pushed = reg.provider_enter(&first, Some(Rc::new(100)));
    assert_eq!(*use_context(&reg, &first), 100);
    assert_eq!(*use_context(&reg, &second), 2);
    reg.provider_exit(&first, pushed);
}

#[test]
fn provider_component_drives_the_registry() {
    let mut reg: ContextRegistry<i32> = ContextRegistry::new();
    let ctx = create_context(&mut reg, Rc::new(5));

    let provider = ContextProvider::from(&ctx).value(Some(Rc::new(6)));
    let pushed = provider.enter(&mut reg);
    assert!(pushed);
    assert_eq!(*use_context(&reg, &ctx), 6);
    reg.provider_exit(&ctx, pushed);
    assert_eq!(*use_context(&reg, &ctx), 5);

    let silent = ContextProvider::from(&ctx).value(None);
    let pushed = silent.enter(&mut reg);
    assert!(!pushed);
    assert_eq!(*use_context(&reg, &ctx), 5);
}

#[test]
fn provider_depth_tracks_enclosing_providers() {
    let mut reg: ContextRegistry<u8> = ContextRegistry::new();
    let ctx = create_context(&mut reg, Rc::new(0));
    assert_eq!(reg.provider_depth(&ctx), 0);
    let outer = reg.provider_enter(&ctx, Some(Rc::new(1)));
    let inner = reg.provider_enter(&ctx, Some(Rc::new(2)));
    assert_eq!(reg.provider_depth(&ctx), 2);
    reg.provider_exit(&ctx, inner);
    assert_eq!(reg.provider_depth(&ctx), 1);
    reg.provider_exit(&ctx, outer);
    assert_eq!(reg.provider_depth(&ctx), 0);
}

#[test]
fn provider_build_yields_component_node() {
    let mut reg: ContextRegistry<i32> = ContextRegistry::new();
    let ctx = create_context(&mut reg, Rc::new(0));
    let (provider, node) = ContextProvider::from(&ctx)
        .value(Some(Rc::new(9)))
        .build(wasm_react::VNodeList::new());
    match node {
        wasm_react::VNode::Component { name, .. } => assert_eq!(name, "ContextProvider"),
        other => panic!("expected a component node, got {:?}", other),
    }
    let pushed = provider.enter(&mut reg);
    assert_eq!(*use_context(&reg, &ctx), 9);
    reg.provider_exit(&ctx, pushed);
}
