use opengrok_mcp::rate_limit::TokenBucket;

#[test]
fn new_creates_limiter() {
    let _bucket = TokenBucket::new(10, 20);
}

#[test]
fn clone_shares_state() {
    let a = TokenBucket::new(10, 10);
    let b = a.clone();
    assert!(a.check());
    assert!(b.check());
}

#[test]
fn check_returns_true_when_tokens_available() {
    let bucket = TokenBucket::new(100, 200);
    assert!(bucket.check());
}

#[test]
fn burst_is_shared_between_clones() {
    let a = TokenBucket::new(1, 2);
    let b = a.clone();
    assert!(a.check());
    assert!(b.check());
    assert!(!a.check());
    assert!(b.try_acquire().is_some());
}
