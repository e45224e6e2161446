use semaphore::permits::{give, is_exhausted, try_take};

#[test]
fn try_take_at_zero_gives_none() {
    assert_eq!(try_take(0), None);
}

#[test]
fn try_take_removes_exactly_one() {
    assert_eq!(try_take(1), Some(0));
    assert_eq!(try_take(7), Some(6));
    assert_eq!(try_take(usize::MAX), Some(usize::MAX - 1));
}

#[test]
fn give_adds_exactly_one() {
    assert_eq!(give(0), 1);
    assert_eq!(give(41), 42);
    assert_eq!(give(usize::MAX - 1), usize::MAX);
}

#[test]
fn give_at_the_machine_limit_stays() {
    assert_eq!(give(usize::MAX), usize::MAX);
}

#[test]
fn only_zero_is_exhausted() {
    assert!(is_exhausted(0));
    assert!(!is_exhausted(1));
    assert!(!is_exhausted(usize::MAX));
}

#[test]
fn take_then_give_is_the_identity() {
    for count in [1usize, 2, 3, 100, usize::MAX] {
        let rest = try_take(count).unwrap();
        assert_eq!(give(rest), count);
    }
}
