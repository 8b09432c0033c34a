use build_executor::admission::{AdmissionController, DEFAULT_BUDGET};

#[test]
fn a_new_controller_has_its_whole_budget_available() {
    let limiter = AdmissionController::new(3);
    assert_eq!(limiter.budget(), 3);
    assert_eq!(limiter.available(), 3);
    assert_eq!(limiter.outstanding(), 0);
}

#[test]
fn the_default_budget_is_sixteen() {
    assert_eq!(DEFAULT_BUDGET, 16);
    let limiter = AdmissionController::default();
    assert_eq!(limiter.budget(), 16);
    assert_eq!(limiter.available(), 16);
}

#[test]
fn a_full_budget_rejects_at_once() {
    let mut limiter = AdmissionController::new(1);
    let first = limiter.try_acquire();
    assert!(first.is_some());
    assert_eq!(limiter.available(), 0);
    assert!(limiter.try_acquire().is_none());
    assert_eq!(limiter.outstanding(), 1);
    limiter.release(first.unwrap());
    assert_eq!(limiter.available(), 1);
    assert!(limiter.try_acquire().is_some());
}

#[test]
fn a_zero_budget_never_admits() {
    let mut limiter = AdmissionController::new(0);
    assert!(limiter.try_acquire().is_none());
    assert_eq!(limiter.available(), 0);
    assert_eq!(limiter.outstanding(), 0);
}

#[test]
fn available_and_outstanding_always_add_up_to_the_budget() {
    let mut limiter = AdmissionController::new(4);
    let mut held = Vec::new();
    let script = [true, true, false, true, true, true, true, false, false, false, false, false, true];
    for acquire in script {
        if acquire {
            if let Some(permit) = limiter.try_acquire() {
                held.push(permit);
            }
        } else if let Some(permit) = held.pop() {
            limiter.release(permit);
        }
        assert_eq!(limiter.available() + limiter.outstanding(), 4);
        assert_eq!(limiter.outstanding(), held.len());
        assert_eq!(limiter.budget(), 4);
    }
}

#[test]
fn a_release_with_nothing_outstanding_does_not_grow_the_budget() {
    let mut source = AdmissionController::new(1);
    let mut other = AdmissionController::new(2);
    let stray = source.try_acquire().unwrap();
    other.release(stray);
    assert_eq!(other.available(), 2);
    assert_eq!(other.outstanding(), 0);
    assert_eq!(other.budget(), 2);
}

#[test]
fn the_listener_sheds_connections_at_a_quarter_of_the_budget() {
    let mut limiter = AdmissionController::new(16);
    let mut held = Vec::new();
    for _ in 0..11 {
        held.push(limiter.try_acquire().unwrap());
    }
    assert_eq!(limiter.available(), 5);
    assert!(limiter.accepts_connections());
    held.push(limiter.try_acquire().unwrap());
    assert_eq!(limiter.available(), 4);
    assert!(!limiter.accepts_connections());
    limiter.release(held.pop().unwrap());
    assert!(limiter.accepts_connections());
}

#[test]
fn a_small_budget_takes_connections_while_anything_is_free() {
    let mut limiter = AdmissionController::new(3);
    assert!(limiter.accepts_connections());
    let _a = limiter.try_acquire().unwrap();
    let _b = limiter.try_acquire().unwrap();
    assert!(limiter.accepts_connections());
    let _c = limiter.try_acquire().unwrap();
    assert!(!limiter.accepts_connections());
}
