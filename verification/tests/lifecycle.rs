use wasm_react::App;
use wasm_react::hooks::RerenderQueue;
use wasm_react::hooks::SlotArena;
use wasm_react::hooks::unmount_with;
use wasm_react::hooks::use_ref;

#[test]
fn slot_initialized_on_first_render_only() {
    let mut arena: SlotArena<u32> = SlotArena::new();
    let handle = use_ref(&mut arena, None, 7);
    assert!(arena.is_live(&handle));
    assert_eq!(*handle.current(&arena), 7);

    // A later render presents the handle again: the payload is untouched
    // and the fresh initial value is discarded.
    let again = use_ref(&mut arena, Some(handle.clone()), 99);
    assert_eq!(*again.current(&arena), 7);
    assert_eq!(arena.slot_count(), 1);
}

#[test]
fn destructor_runs_exactly_once_and_only_after_unmount() {
    let mut arena: SlotArena<String> = SlotArena::new();
    let handle = use_ref(&mut arena, None, String::from("payload"));

    // Mounted: several renders, the destructor has not run.
    for _ in 0..5 {
        let h = use_ref(&mut arena, Some(handle.clone()), String::from("ignored"));
        assert_eq!(arena.drop_count(&h), 0);
        assert!(arena.is_live(&h));
    }

    // Unmount: the payload is handed out once and destroyed exactly once.
    let payload = arena.unmount(&handle);
    assert_eq!(payload, "payload");
    assert_eq!(arena.drop_count(&handle), 1);
    assert!(!arena.is_live(&handle));
}

#[test]
fn set_current_replaces_payload_without_destroying() {
    let mut arena: SlotArena<i64> = SlotArena::new();
    let handle = use_ref(&mut arena, None, 1);
    handle.set_current(&mut arena, 2);
    assert_eq!(*handle.current(&arena), 2);
    assert_eq!(arena.drop_count(&handle), 0);
    let got = arena.unmount(&handle);
    assert_eq!(got, 2);
    assert_eq!(arena.drop_count(&handle), 1);
}

#[test]
fn unmount_frees_only_the_unmounted_instance() {
    let mut arena: SlotArena<u8> = SlotArena::new();
    let first = use_ref(&mut arena, None, 10);
    let second = use_ref(&mut arena, None, 20);
    arena.unmount(&first);
    assert!(!arena.is_live(&first));
    assert!(arena.is_live(&second));
    assert_eq!(*second.current(&arena), 20);
    assert_eq!(arena.drop_count(&second), 0);
}

#[test]
fn counter_scenario_increment_twice_then_unmount() {
    // Counter state 11, increment with step 5 invoked twice: observed
    // state 21; the unmount then frees the slot exactly once.
    let mut arena = SlotArena::new();
    let mut queue = RerenderQueue::new();
    let app = App { diff: 5 };

    let (state, _node) = app.render(&mut arena, None);
    assert_eq!(state.current(&arena).counter, 11);

    app.increment(&state, &mut arena, &mut queue);
    app.increment(&state, &mut arena, &mut queue);
    assert_eq!(state.current(&arena).counter, 21);
    assert_eq!(queue.pending_count(), 2);

    // The re-render observes the updated state directly from the slot.
    let (state, _node) = app.render(&mut arena, Some(state));
    assert_eq!(state.current(&arena).counter, 21);

    let slot = state.handle();
    let freed = arena.unmount(&slot);
    assert_eq!(freed.counter, 21);
    assert_eq!(arena.drop_count(&slot), 1);
}

#[test]
fn unmount_handler_sees_the_payload_before_the_slot_is_freed() {
    let mut arena: SlotArena<Vec<i32>> = SlotArena::new();
    let handle = use_ref(&mut arena, None, vec![4, 5]);

    let mut observed: Vec<i32> = Vec::new();
    // The handler gets exclusive access to the payload; the slot is freed
    // unconditionally afterwards.
    unmount_with(&mut arena, &handle, |payload: Vec<i32>| {
        observed = payload;
    });
    assert_eq!(observed, vec![4, 5]);
    assert!(!arena.is_live(&handle));
    assert_eq!(arena.drop_count(&handle), 1);
}

#[test]
fn decrement_applies_immediately() {
    let mut arena = SlotArena::new();
    let mut queue = RerenderQueue::new();
    let app = App { diff: 3 };
    let (state, _node) = app.render(&mut arena, None);
    app.decrement(&state, &mut arena, &mut queue);
    assert_eq!(state.current(&arena).counter, 8);
    assert_eq!(queue.pending_count(), 1);
}
