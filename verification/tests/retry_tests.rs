use runesys::util::{interceptor, retry_on_script, retry_step, RetryDecision};

#[test]
fn retry_step_decisions() {
    assert_eq!(retry_step(false, 5), RetryDecision::Deliver);
    assert_eq!(retry_step(false, 0), RetryDecision::Deliver);
    assert_eq!(retry_step(true, 2), RetryDecision::RetryAfterDelay);
    assert_eq!(retry_step(true, 0), RetryDecision::GiveUp);
}

#[test]
fn retry_fails_twice_then_succeeds() {
    // fails twice, then succeeds; three retries allowed
    let script: Vec<Result<u32, String>> = vec![
        Err("first".to_string()),
        Err("second".to_string()),
        Ok(7),
        Ok(9),
    ];
    let used = retry_on_script(&script, 3);
    assert_eq!(used, 3, "the operation is invoked exactly three times");
    assert_eq!(script[used - 1], Ok(7), "the first success is delivered");
}

#[test]
fn retry_exhausts_and_returns_final_error() {
    // always fails; two retries allowed
    let script: Vec<Result<u32, String>> = vec![
        Err("one".to_string()),
        Err("two".to_string()),
        Err("three".to_string()),
    ];
    let used = retry_on_script(&script, 2);
    assert_eq!(used, 3, "three invocations in total");
    assert_eq!(script[used - 1], Err("three".to_string()));
}

#[test]
fn retry_immediate_success_uses_one_attempt() {
    let script: Vec<Result<u32, String>> = vec![Ok(1), Err("unused".to_string())];
    let used = retry_on_script(&script, 1);
    assert_eq!(used, 1);
    assert_eq!(script[used - 1], Ok(1));
}

#[test]
fn interceptor_applies_the_mutator() {
    let f = interceptor(|x: u32| x + 1);
    match f(41) {
        Ok(v) => assert_eq!(v, 42),
        Err(_) => panic!("the interceptor never rejects"),
    }
}
