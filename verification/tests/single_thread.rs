use semaphore::{Semaphore, SemaphoreGuard};
use std::time::{Duration, Instant};

#[test]
fn new_reports_its_count() {
    assert_eq!(Semaphore::new(0).get_value(), 0);
    assert_eq!(Semaphore::new(5).get_value(), 5);
    assert_eq!(Semaphore::new(usize::MAX).get_value(), usize::MAX);
}

#[test]
fn try_acquire_at_zero_fails_and_keeps_zero() {
    let sem = Semaphore::new(0);
    assert!(!sem.try_acquire());
    assert_eq!(sem.get_value(), 0);
    assert!(!sem.try_acquire());
    assert_eq!(sem.get_value(), 0);
}

#[test]
fn try_acquire_with_permits_takes_one() {
    for k in [1usize, 2, 9, 1000] {
        let sem = Semaphore::new(k);
        assert!(sem.try_acquire());
        assert_eq!(sem.get_value(), k - 1);
    }
}

#[test]
fn try_acquire_drains_to_zero_and_then_fails() {
    let sem = Semaphore::new(3);
    assert!(sem.try_acquire());
    assert!(sem.try_acquire());
    assert!(sem.try_acquire());
    assert_eq!(sem.get_value(), 0);
    assert!(!sem.try_acquire());
    assert_eq!(sem.get_value(), 0);
}

#[test]
fn acquire_with_a_free_permit_returns_and_takes_it() {
    let sem = Semaphore::new(2);
    sem.acquire();
    assert_eq!(sem.get_value(), 1);
    sem.acquire();
    assert_eq!(sem.get_value(), 0);
}

#[test]
fn release_adds_one() {
    let sem = Semaphore::new(0);
    sem.release();
    assert_eq!(sem.get_value(), 1);
    sem.release();
    assert_eq!(sem.get_value(), 2);
}

#[test]
fn release_is_not_clamped_to_the_initial_count() {
    let sem = Semaphore::new(1);
    sem.release();
    sem.release();
    assert_eq!(sem.get_value(), 3);
    assert!(sem.try_acquire());
    assert!(sem.try_acquire());
    assert!(sem.try_acquire());
    assert!(!sem.try_acquire());
}

#[test]
fn release_at_the_machine_limit_keeps_the_counter() {
    let sem = Semaphore::new(usize::MAX);
    sem.release();
    assert_eq!(sem.get_value(), usize::MAX);
}

#[test]
fn acquire_timeout_zero_at_zero_fails_promptly() {
    let sem = Semaphore::new(0);
    let start = Instant::now();
    assert!(!sem.acquire_timeout(Duration::from_secs(0)));
    assert!(start.elapsed() < Duration::from_secs(2));
    assert_eq!(sem.get_value(), 0);
}

#[test]
fn acquire_timeout_at_zero_waits_out_the_window_and_fails() {
    let sem = Semaphore::new(0);
    let start = Instant::now();
    assert!(!sem.acquire_timeout(Duration::from_millis(60)));
    assert!(start.elapsed() >= Duration::from_millis(60));
    assert_eq!(sem.get_value(), 0);
}

#[test]
fn acquire_timeout_with_a_free_permit_succeeds_without_waiting() {
    let sem = Semaphore::new(2);
    let start = Instant::now();
    assert!(sem.acquire_timeout(Duration::from_secs(15)));
    assert!(start.elapsed() < Duration::from_secs(5));
    assert_eq!(sem.get_value(), 1);
    assert!(sem.acquire_timeout(Duration::from_secs(0)));
    assert_eq!(sem.get_value(), 0);
}

#[test]
fn capacity_two_scenario() {
    let sem = Semaphore::new(2);
    sem.acquire();
    assert_eq!(sem.get_value(), 1);
    sem.acquire();
    assert_eq!(sem.get_value(), 0);
    assert!(!sem.try_acquire());
    assert_eq!(sem.get_value(), 0);
    sem.release();
    assert_eq!(sem.get_value(), 1);
    assert!(sem.try_acquire());
    assert_eq!(sem.get_value(), 0);
}

#[test]
fn guard_gives_its_permit_back_at_scope_exit() {
    let sem = Semaphore::new(1);
    {
        let _permit = SemaphoreGuard::acquire(&sem);
        assert_eq!(sem.get_value(), 0);
        assert!(!sem.try_acquire());
    }
    assert_eq!(sem.get_value(), 1);
}

fn leave_early(sem: &Semaphore, early: bool) -> usize {
    let _permit = SemaphoreGuard::acquire(sem);
    if early {
        return sem.get_value();
    }
    sem.get_value() + 100
}

#[test]
fn guard_gives_its_permit_back_on_early_return() {
    let sem = Semaphore::new(1);
    assert_eq!(leave_early(&sem, true), 0);
    assert_eq!(sem.get_value(), 1);
    assert_eq!(leave_early(&sem, false), 100);
    assert_eq!(sem.get_value(), 1);
}

#[test]
fn nested_guards_release_one_permit_each() {
    let sem = Semaphore::new(3);
    let first = SemaphoreGuard::acquire(&sem);
    let second = SemaphoreGuard::acquire(&sem);
    assert_eq!(sem.get_value(), 1);
    drop(first);
    assert_eq!(sem.get_value(), 2);
    drop(second);
    assert_eq!(sem.get_value(), 3);
}

#[test]
fn n_acquires_then_n_releases_return_to_n() {
    for n in [0usize, 1, 2, 5, 64] {
        let sem = Semaphore::new(n);
        for taken in 0..n {
            assert_eq!(sem.get_value(), n - taken);
            sem.acquire();
        }
        assert_eq!(sem.get_value(), 0);
        for given in 0..n {
            assert_eq!(sem.get_value(), given);
            sem.release();
        }
        assert_eq!(sem.get_value(), n);
    }
}

#[test]
fn balanced_use_stays_within_the_initial_count() {
    let sem = Semaphore::new(4);
    let steps = [true, true, false, true, false, false, true, true, true, false, false, false];
    for take in steps {
        if take {
            assert!(sem.try_acquire());
        } else {
            sem.release();
        }
        assert!(sem.get_value() <= 4);
    }
    assert_eq!(sem.get_value(), 4);
}
