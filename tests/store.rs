use tuna::{get, is_registered, register, reset, Boolean, Int32, Int64, Tuneable, TunaState};

#[test]
fn clamp_bounded_below_and_above() {
    let mut state = TunaState::new();
    let v = Int32::new("clamp", "both", 10, Some(0), Some(20));
    v.register(&mut state);
    v.write(&mut state, 30);
    assert_eq!(v.read(&mut state), 20);
    v.write(&mut state, -5);
    assert_eq!(v.read(&mut state), 0);
    v.write(&mut state, 5);
    assert_eq!(v.read(&mut state), 5);
}

#[test]
fn clamp_unbounded_below() {
    let mut state = TunaState::new();
    let v = Int64::new("clamp", "no_min", 10, None, Some(20));
    v.write(&mut state, -5);
    assert_eq!(v.read(&mut state), -5);
}

#[test]
fn clamp_unbounded_above() {
    let mut state = TunaState::new();
    let v = Int64::new("clamp", "no_max", 10, Some(0), None);
    v.write(&mut state, 30);
    assert_eq!(v.read(&mut state), 30);
}

#[test]
fn clamp_at_extremes() {
    let mut state = TunaState::new();
    let v = Int32::new("clamp", "extreme", 0, Some(i32::MIN), Some(i32::MAX));
    v.write(&mut state, i32::MAX);
    assert_eq!(v.read(&mut state), i32::MAX);
    v.write(&mut state, i32::MIN);
    assert_eq!(v.read(&mut state), i32::MIN);
}

#[test]
fn register_twice_keeps_first() {
    let mut state = TunaState::new();
    let v = Int32::new("reg", "x", 7, Some(0), Some(10));
    v.register(&mut state);
    v.write(&mut state, 9);
    v.register(&mut state);
    assert_eq!(v.read(&mut state), 9);
    let other = Int32::new("reg", "x", 3, None, None);
    other.register(&mut state);
    other.reset(&mut state);
    assert_eq!(v.read(&mut state), 7);
    let snapshot = state.snapshot();
    assert_eq!(snapshot.len(), 1);
    match snapshot[0].value {
        Tuneable::Int32(x) => {
            assert_eq!(x.default, 7);
            assert_eq!(x.min, Some(0));
            assert_eq!(x.max, Some(10));
        }
        _ => panic!("wrong kind"),
    }
}

#[test]
fn unregistered_get_is_absent_and_set_creates_nothing() {
    let mut state = TunaState::new();
    assert_eq!(get::<Int32>(&state, "none", "x"), None);
    assert!(!tuna::api::set::<Int32>(&mut state, "none", "x", 4));
    assert!(!is_registered(&state, "none", "x"));
    reset::<Int32>(&mut state, "none", "x");
    assert!(!is_registered(&state, "none", "x"));
    assert_eq!(state.snapshot().len(), 0);
}

#[test]
fn kind_mismatch_is_absent_and_refused() {
    let mut state = TunaState::new();
    let flag = Boolean::new("kind", "flag", true);
    flag.register(&mut state);
    assert_eq!(get::<Int32>(&state, "kind", "flag"), None);
    assert_eq!(get::<Int64>(&state, "kind", "flag"), None);
    assert!(!tuna::api::set::<Int32>(&mut state, "kind", "flag", 1));
    assert_eq!(get::<Boolean>(&state, "kind", "flag"), Some(true));
    let as_int = Int32::new("kind", "flag", 5, None, None);
    assert_eq!(as_int.read(&mut state), 5);
    as_int.write(&mut state, 8);
    assert_eq!(flag.read(&mut state), true);
}

#[test]
fn generic_operations() {
    let mut state = TunaState::new();
    let v = Int64::new("gen", "v", 100, Some(-50), Some(50));
    register(&mut state, "gen", "v", &v);
    assert!(is_registered(&state, "gen", "v"));
    assert_eq!(get::<Int64>(&state, "gen", "v"), Some(100));
    assert!(tuna::api::set::<Int64>(&mut state, "gen", "v", 75));
    assert_eq!(get::<Int64>(&state, "gen", "v"), Some(50));
    assert!(tuna::api::set::<Int64>(&mut state, "gen", "v", -75));
    assert_eq!(get::<Int64>(&state, "gen", "v"), Some(-50));
    reset::<Int64>(&mut state, "gen", "v");
    assert_eq!(get::<Int64>(&state, "gen", "v"), Some(100));
}

#[test]
fn keys_are_case_sensitive_and_per_category() {
    let mut state = TunaState::new();
    let a = Int32::new("cat", "name", 1, None, None);
    let b = Int32::new("cat", "Name", 2, None, None);
    let c = Int32::new("other", "name", 3, None, None);
    a.register(&mut state);
    b.register(&mut state);
    c.register(&mut state);
    assert_eq!(a.read(&mut state), 1);
    assert_eq!(b.read(&mut state), 2);
    assert_eq!(c.read(&mut state), 3);
    assert_eq!(state.snapshot().len(), 3);
}

#[test]
fn last_write_wins() {
    let mut state = TunaState::new();
    let v = Int32::new("seq", "v", 0, Some(0), Some(100));
    for x in [5, 500, -3, 42] {
        v.write(&mut state, x);
    }
    assert_eq!(v.read(&mut state), 42);
    v.write(&mut state, 500);
    assert_eq!(v.read(&mut state), 100);
}

#[test]
fn read_registers_on_miss() {
    let mut state = TunaState::new();
    let v = Int32::new("miss", "v", 6, None, None);
    assert!(!is_registered(&state, "miss", "v"));
    assert_eq!(v.read(&mut state), 6);
    assert!(is_registered(&state, "miss", "v"));
}
