use mocktopus::mocking::{dispatch, extract, intercept, resolve, ArgSlot, MockResult, Registry, Resolution};
use std::fmt::Display;
use std::rc::Rc;

type Callback<A, R> = Box<dyn Fn(A) -> Result<MockResult<A, R>, String>>;

type GreetRegistry = Registry<Callback<(), &'static str>>;

fn no_args_returns_str(reg: &GreetRegistry) -> &'static str {
    let mut slot = ArgSlot::Held(());
    match intercept(reg, greet_id(), &mut slot) {
        Resolution::Returned(v) => return v,
        Resolution::Unwound(p) => panic!("{}", p),
        Resolution::Proceed => {}
    }
    "not mocked"
}

fn greet_id() -> u64 {
    no_args_returns_str as fn(&GreetRegistry) -> &'static str as usize as u64
}

/// An unrelated function with the same body, standing for a function of the
/// same name declared in another scope.
fn other_no_args_returns_str(reg: &GreetRegistry) -> &'static str {
    let id = other_no_args_returns_str as fn(&GreetRegistry) -> &'static str as usize as u64;
    let mut slot = ArgSlot::Held(());
    match intercept(reg, id, &mut slot) {
        Resolution::Returned(v) => return v,
        Resolution::Unwound(p) => panic!("{}", p),
        Resolution::Proceed => {}
    }
    "not mocked"
}

#[test]
fn when_not_mocked_then_returns_not_mocked() {
    let reg: GreetRegistry = Registry::new();
    assert_eq!("not mocked", no_args_returns_str(&reg));
}

#[test]
fn when_mocked_then_returns_mocked() {
    let mut reg: GreetRegistry = Registry::new();
    reg.install(greet_id(), Box::new(|_| Ok(MockResult::Return("mocked"))));

    assert_eq!("mocked", no_args_returns_str(&reg));
}

#[test]
fn mocking_is_scope_qualified() {
    let mut reg: GreetRegistry = Registry::new();
    assert_eq!("not mocked", no_args_returns_str(&reg));
    reg.install(greet_id(), Box::new(|_| Ok(MockResult::Return("mocked"))));
    assert_eq!("mocked", no_args_returns_str(&reg));
    assert_eq!("not mocked", other_no_args_returns_str(&reg));
}

#[test]
fn second_install_overwrites_first() {
    let mut reg: GreetRegistry = Registry::new();
    assert!(!reg.install(greet_id(), Box::new(|_| Ok(MockResult::Return("first")))));
    assert!(reg.install(greet_id(), Box::new(|_| Ok(MockResult::Return("second")))));
    assert_eq!("second", no_args_returns_str(&reg));
    assert_eq!("second", no_args_returns_str(&reg));
}

type TextRegistry = Registry<Callback<String, String>>;

/// A generic function whose arguments cross the interception as their text.
fn function<T: Display>(reg: &TextRegistry, generic: T) -> String {
    let id = function::<T> as fn(&TextRegistry, T) -> String as usize as u64;
    let mut slot = ArgSlot::Held(format!("{}", generic));
    match intercept(reg, id, &mut slot) {
        Resolution::Returned(v) => return v,
        Resolution::Unwound(p) => panic!("{}", p),
        Resolution::Proceed => {}
    }
    format!("not mocked {}", generic)
}

fn mocked_text(c: String) -> Result<MockResult<String, String>, String> {
    Ok(MockResult::Return(format!("mocked {}", c)))
}

const STATIC_CHAR: char = 'S';

#[test]
fn all_lifetime_variants_get_mocked() {
    let mut reg: TextRegistry = Registry::new();
    let id = function::<&'static char> as fn(&TextRegistry, &'static char) -> String as usize as u64;
    reg.install(id, Box::new(mocked_text));
    let local_char = 'L';
    let static_char = STATIC_CHAR;

    assert_eq!("mocked L", function(&reg, &local_char));
    assert_eq!("mocked S", function(&reg, &static_char));
    assert_eq!("not mocked 3", function(&reg, &3));
}

#[test]
fn mocking_for_ref_does_not_mock_for_mut_ref() {
    let mut reg: TextRegistry = Registry::new();
    let id = function::<&'static char> as fn(&TextRegistry, &'static char) -> String as usize as u64;
    reg.install(id, Box::new(mocked_text));

    assert_eq!("mocked R", function(&reg, &'R'));
    assert_eq!("not mocked M", function(&reg, &mut 'M'));
}

#[test]
fn mocking_for_mut_ref_does_not_mock_for_ref() {
    let mut reg: TextRegistry = Registry::new();
    let id = function::<&'static mut char> as fn(&TextRegistry, &'static mut char) -> String as usize as u64;
    reg.install(id, Box::new(mocked_text));

    assert_eq!("not mocked R", function(&reg, &'R'));
    assert_eq!("mocked M", function(&reg, &mut 'M'));
}

type CountRegistry = Registry<Callback<(Rc<u32>, u32), u32>>;

/// Adds to the value behind `counter`; the counter is dropped at the end of
/// the body, or consumed by the interception.
fn add_to(reg: &CountRegistry, counter: Rc<u32>, extra: u32) -> u32 {
    let id = add_to as fn(&CountRegistry, Rc<u32>, u32) -> u32 as usize as u64;
    let mut slot = ArgSlot::Held((counter, extra));
    match intercept(reg, id, &mut slot) {
        Resolution::Returned(v) => return v,
        Resolution::Unwound(p) => panic!("{}", p),
        Resolution::Proceed => {}
    }
    match slot {
        ArgSlot::Held((counter, extra)) => *counter + extra,
        ArgSlot::MovedOut => unreachable!(),
    }
}

fn add_to_id() -> u64 {
    add_to as fn(&CountRegistry, Rc<u32>, u32) -> u32 as usize as u64
}

#[test]
fn unmocked_call_is_transparent() {
    let reg: CountRegistry = Registry::new();
    let shared = Rc::new(40);
    assert_eq!(42, add_to(&reg, shared.clone(), 2));
    assert_eq!(1, Rc::strong_count(&shared));
}

#[test]
fn continue_with_changed_arguments_reaches_body() {
    let mut reg: CountRegistry = Registry::new();
    reg.install(add_to_id(), Box::new(|(c, _)| Ok(MockResult::Continue((c, 100)))));
    let shared = Rc::new(1);
    assert_eq!(101, add_to(&reg, shared.clone(), 2));
    assert_eq!(1, Rc::strong_count(&shared));
}

#[test]
fn return_releases_arguments_once() {
    let mut reg: CountRegistry = Registry::new();
    reg.install(add_to_id(), Box::new(|_| Ok(MockResult::Return(7))));
    let shared = Rc::new(1);
    assert_eq!(7, add_to(&reg, shared.clone(), 2));
    assert_eq!(1, Rc::strong_count(&shared));
}

#[test]
fn unwind_carries_payload_and_skips_body() {
    let mut reg: CountRegistry = Registry::new();
    reg.install(add_to_id(), Box::new(|_| Err("boom".to_string())));
    let shared = Rc::new(1);
    let mut slot = ArgSlot::Held((shared.clone(), 2));
    match intercept(&reg, add_to_id(), &mut slot) {
        Resolution::Unwound(p) => assert_eq!("boom", p),
        _ => panic!("expected an unwind"),
    }
    assert!(matches!(slot, ArgSlot::MovedOut));
    assert_eq!(1, Rc::strong_count(&shared));
}

#[test]
fn protocol_steps_in_turn() {
    let reg: CountRegistry = Registry::new();
    let mut slot = ArgSlot::Held((Rc::new(5), 6));
    let args = extract(&mut slot);
    assert!(matches!(slot, ArgSlot::MovedOut));
    let outcome = dispatch(&reg, 9, args);
    let r = resolve(&mut slot, outcome);
    assert!(matches!(r, Resolution::Proceed));
    match slot {
        ArgSlot::Held((c, e)) => assert_eq!((5, 6), (*c, e)),
        ArgSlot::MovedOut => panic!("arguments lost"),
    }
}

#[test]
fn lookup_sees_only_installed_identity() {
    let mut reg: GreetRegistry = Registry::new();
    assert!(reg.lookup(1).is_none());
    reg.install(1, Box::new(|_| Ok(MockResult::Return("one"))));
    assert!(reg.lookup(1).is_some());
    assert!(reg.lookup(2).is_none());
}
