use clearframe::render::RetryBudget;

#[test]
fn retries_up_to_the_limit_then_stops() {
    let mut budget = RetryBudget::new(3);
    assert!(budget.record_failure());
    assert!(budget.record_failure());
    assert!(budget.record_failure());
    assert!(!budget.record_failure());
    assert!(!budget.record_failure());
    assert_eq!(budget.used, 3);
}

#[test]
fn a_success_resets_the_failure_run() {
    let mut budget = RetryBudget::new(2);
    assert!(budget.record_failure());
    assert!(budget.record_failure());
    budget.record_success();
    assert_eq!(budget.used, 0);
    assert!(budget.record_failure());
}

#[test]
fn zero_limit_never_retries() {
    let mut budget = RetryBudget::new(0);
    assert!(!budget.record_failure());
    assert_eq!(budget, RetryBudget::new(0));
}
