use wasm_react::Callable;
use wasm_react::Callback;
use wasm_react::ClosureRegistry;
use wasm_react::Void;

#[test]
fn call_once_invoked_once_returns_the_closures_result() {
    let mut reg = ClosureRegistry::new();
    let cb = Callback::once(&mut reg, |x: i32| x + 1);
    let id = cb.table_key();
    assert!(reg.can_invoke(id));
    assert_eq!(reg.disposal_count(id), 0);

    // The single invocation consumes the callback — no second call can be
    // written — and returns the closure's result.
    let result = cb.call_once(&mut reg, 41);
    assert_eq!(result, 42);
    assert!(!reg.can_invoke(id));
    assert_eq!(reg.disposal_count(id), 1);
}

#[test]
fn call_once_never_invoked_is_disposed_on_drop() {
    let mut reg = ClosureRegistry::new();
    let payload = String::from("captured");
    let cb = Callback::once(&mut reg, move |_: Void| payload.len());
    let id = cb.table_key();
    assert_eq!(reg.disposal_count(id), 0);
    cb.dispose(&mut reg);
    assert_eq!(reg.disposal_count(id), 1);
    assert!(!reg.can_invoke(id));
}

#[test]
fn repeatable_callback_survives_invocations_until_dropped() {
    let mut reg = ClosureRegistry::new();
    let cb = Callback::new(&mut reg, |x: u32| x * 2);
    let id = cb.table_key();
    assert_eq!(cb.call(&mut reg, 3), 6);
    assert_eq!(cb.call(&mut reg, 5), 10);
    assert!(reg.can_invoke(id));
    assert_eq!(reg.disposal_count(id), 0);

    cb.dispose(&mut reg);
    assert!(!reg.can_invoke(id));
    assert_eq!(reg.disposal_count(id), 1);
}

#[test]
fn registered_closures_are_independent() {
    let mut reg = ClosureRegistry::new();
    let once = Callback::once(&mut reg, |x: i32| x - 1);
    let repeat = Callback::new(&mut reg, |x: i32| x + 1);
    let once_id = once.table_key();
    let repeat_id = repeat.table_key();

    once.dispose(&mut reg);
    assert!(!reg.can_invoke(once_id));
    assert!(reg.can_invoke(repeat_id));
    assert_eq!(repeat.call(&mut reg, 1), 2);
}

#[test]
fn callable_closures() {
    let double = |x: i64| x * 2;
    assert_eq!(double.call(21), 42);
    let ignore = |_: Void| ();
    ignore.call(Void);
}

#[test]
fn absent_callback_is_a_graceful_no_op() {
    let present: Option<fn(i32) -> i32> = Some(|x| x + 1);
    assert_eq!(present.call(1), 2);
    let absent: Option<fn(i32) -> i32> = None;
    assert_eq!(absent.call(1), 0);
}
