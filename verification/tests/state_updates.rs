use wasm_react::hooks::RerenderQueue;
use wasm_react::hooks::SlotArena;
use wasm_react::hooks::use_state;

#[test]
fn state_initialized_once() {
    let mut arena: SlotArena<i32> = SlotArena::new();
    let state = use_state(&mut arena, None, || 5);
    assert_eq!(*state.current(&arena), 5);

    // A later render hands the handle back; the initializer does not run
    // again.
    let state = use_state(&mut arena, Some(state), || 1000);
    assert_eq!(*state.current(&arena), 5);
    assert_eq!(arena.slot_count(), 1);
}

#[test]
fn updates_apply_immediately_in_call_order() {
    // The visible value is the left-to-right fold of the mutators over the
    // initial value: (5 * 2) + 3 = 13, not (5 + 3) * 2.
    let mut arena: SlotArena<i32> = SlotArena::new();
    let mut queue = RerenderQueue::new();
    let state = use_state(&mut arena, None, || 5);

    state.update(&mut arena, &mut queue, |x| x * 2);
    assert_eq!(*state.current(&arena), 10);
    state.update(&mut arena, &mut queue, |x| x + 3);
    assert_eq!(*state.current(&arena), 13);
}

#[test]
fn each_update_queues_one_rerender_request() {
    let mut arena: SlotArena<u64> = SlotArena::new();
    let mut queue = RerenderQueue::new();
    let state = use_state(&mut arena, None, || 0);

    assert_eq!(queue.pending_count(), 0);
    state.update(&mut arena, &mut queue, |x| x + 1);
    state.update(&mut arena, &mut queue, |x| x + 1);
    state.update(&mut arena, &mut queue, |x| x + 1);
    assert_eq!(queue.pending_count(), 3);

    // The host serves every pending request in one reconciliation pass.
    assert_eq!(queue.drain(), 3);
    assert_eq!(queue.pending_count(), 0);
    assert_eq!(*state.current(&arena), 3);
}

#[test]
fn unmount_frees_the_state_slot() {
    let mut arena: SlotArena<Vec<u8>> = SlotArena::new();
    let mut queue = RerenderQueue::new();
    let state = use_state(&mut arena, None, || vec![1, 2]);
    state.update(&mut arena, &mut queue, |mut v| {
        v.push(3);
        v
    });
    let handle = state.handle();
    let freed = arena.unmount(&handle);
    assert_eq!(freed, vec![1, 2, 3]);
    assert_eq!(arena.drop_count(&handle), 1);
}
