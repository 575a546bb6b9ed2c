use tuna::{Boolean, TunaState};

fn test_value1() -> Boolean {
    Boolean::new("bool", "name1", true)
}

fn test_value2() -> Boolean {
    Boolean::new("bool", "name2", false)
}

#[test]
fn default() {
    let mut state = TunaState::new();
    test_value1().register(&mut state);
    test_value2().register(&mut state);
}

#[test]
fn get() {
    let mut state = TunaState::new();
    test_value1().reset(&mut state);
    test_value2().reset(&mut state);
    assert_eq!(test_value1().read(&mut state), true);
    assert_eq!(test_value2().read(&mut state), false);
}

#[test]
fn set() {
    let mut state = TunaState::new();
    test_value1().write(&mut state, false);
    assert_eq!(test_value1().read(&mut state), false);

    test_value2().write(&mut state, true);
    assert_eq!(test_value2().read(&mut state), true);
}

#[test]
fn reset() {
    let mut state = TunaState::new();
    test_value1().reset(&mut state);
    test_value2().reset(&mut state);
    assert_eq!(test_value1().read(&mut state), true);
    assert_eq!(test_value2().read(&mut state), false);
}

#[test]
fn boolean_reset_after_write_restores_default() {
    let mut state = TunaState::new();
    test_value1().write(&mut state, false);
    assert_eq!(test_value1().read(&mut state), false);
    test_value1().reset(&mut state);
    assert_eq!(test_value1().read(&mut state), true);
}
