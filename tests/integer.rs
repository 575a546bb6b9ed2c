use tuna::{Int32, Int64, TunaState};

fn test_int321() -> Int32 {
    Int32::new("int", "int32_1", 1, Some(0), Some(5))
}

fn test_int322() -> Int32 {
    Int32::new("int", "int32_2", 2, None, Some(5))
}

fn test_int323() -> Int32 {
    Int32::new("int", "int32_3", 3, Some(0), None)
}

fn test_int324() -> Int32 {
    Int32::new("int", "int32_4", 4, None, None)
}

fn test_int641() -> Int64 {
    Int64::new("int", "int64_1", 1, Some(0), Some(5))
}

fn test_int642() -> Int64 {
    Int64::new("int", "int64_2", 2, None, Some(5))
}

fn test_int643() -> Int64 {
    Int64::new("int", "int64_3", 3, Some(0), None)
}

fn test_int644() -> Int64 {
    Int64::new("int", "int64_4", 4, None, None)
}

#[test]
fn int_default_32() {
    let mut state = TunaState::new();
    test_int321().register(&mut state);
    test_int322().register(&mut state);
    test_int323().register(&mut state);
    test_int324().register(&mut state);
}

#[test]
fn int_get_32() {
    let mut state = TunaState::new();
    test_int321().reset(&mut state);
    test_int322().reset(&mut state);
    test_int323().reset(&mut state);
    test_int324().reset(&mut state);

    assert_eq!(test_int321().read(&mut state), 1);
    assert_eq!(test_int322().read(&mut state), 2);
    assert_eq!(test_int323().read(&mut state), 3);
    assert_eq!(test_int324().read(&mut state), 4);
}

#[test]
fn int_set_high_32() {
    let mut state = TunaState::new();
    test_int321().write(&mut state, 10);
    assert_eq!(test_int321().read(&mut state), 5);

    test_int322().write(&mut state, 10);
    assert_eq!(test_int322().read(&mut state), 5);

    test_int323().write(&mut state, 10);
    assert_eq!(test_int323().read(&mut state), 10);

    test_int324().write(&mut state, 10);
    assert_eq!(test_int324().read(&mut state), 10);
}

#[test]
fn int_set_low_32() {
    let mut state = TunaState::new();
    test_int321().write(&mut state, -10);
    test_int322().write(&mut state, -10);
    test_int323().write(&mut state, -10);
    test_int324().write(&mut state, -10);

    assert_eq!(test_int321().read(&mut state), 0);
    assert_eq!(test_int322().read(&mut state), -10);
    assert_eq!(test_int323().read(&mut state), 0);
    assert_eq!(test_int324().read(&mut state), -10);
}

#[test]
fn int_reset_32() {
    let mut state = TunaState::new();
    test_int321().reset(&mut state);
    test_int322().reset(&mut state);
    test_int323().reset(&mut state);
    test_int324().reset(&mut state);

    assert_eq!(test_int321().read(&mut state), 1);
    assert_eq!(test_int322().read(&mut state), 2);
    assert_eq!(test_int323().read(&mut state), 3);
    assert_eq!(test_int324().read(&mut state), 4);
}

#[test]
fn int_default_64() {
    let mut state = TunaState::new();
    test_int641().register(&mut state);
    test_int642().register(&mut state);
    test_int643().register(&mut state);
    test_int644().register(&mut state);
}

#[test]
fn int_get_64() {
    let mut state = TunaState::new();
    test_int641().reset(&mut state);
    test_int642().reset(&mut state);
    test_int643().reset(&mut state);
    test_int644().reset(&mut state);

    assert_eq!(test_int641().read(&mut state), 1);
    assert_eq!(test_int642().read(&mut state), 2);
    assert_eq!(test_int643().read(&mut state), 3);
    assert_eq!(test_int644().read(&mut state), 4);
}

#[test]
fn int_set_high_64() {
    let mut state = TunaState::new();
    test_int641().write(&mut state, 10);
    test_int642().write(&mut state, 10);
    test_int643().write(&mut state, 10);
    test_int644().write(&mut state, 10);

    assert_eq!(test_int641().read(&mut state), 5);
    assert_eq!(test_int642().read(&mut state), 5);
    assert_eq!(test_int643().read(&mut state), 10);
    assert_eq!(test_int644().read(&mut state), 10);
}

#[test]
fn int_set_low_64() {
    let mut state = TunaState::new();
    test_int641().write(&mut state, -10);
    test_int642().write(&mut state, -10);
    test_int643().write(&mut state, -10);
    test_int644().write(&mut state, -10);

    assert_eq!(test_int641().read(&mut state), 0);
    assert_eq!(test_int642().read(&mut state), -10);
    assert_eq!(test_int643().read(&mut state), 0);
    assert_eq!(test_int644().read(&mut state), -10);
}

#[test]
fn int_reset_64() {
    let mut state = TunaState::new();
    test_int641().reset(&mut state);
    test_int642().reset(&mut state);
    test_int643().reset(&mut state);
    test_int644().reset(&mut state);

    assert_eq!(test_int641().read(&mut state), 1);
    assert_eq!(test_int642().read(&mut state), 2);
    assert_eq!(test_int643().read(&mut state), 3);
    assert_eq!(test_int644().read(&mut state), 4);
}
