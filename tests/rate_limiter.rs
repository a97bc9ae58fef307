use pocket_web_backend::rate_limiter::{
    check_rate_limit_or_reject, ClientIp, RateLimit, RateLimitRejection, RateLimiter, RequestEntry, Scope,
};

const NOW: u64 = 1_700_000_000;

fn localhost() -> ClientIp {
    ClientIp::V4(0x7f00_0001)
}

#[test]
fn test_rate_limit_creation() {
    let limit = RateLimit::login_limit();
    assert_eq!(limit.max_requests, 5);
    assert_eq!(limit.window_seconds, 300);
}

#[test]
fn test_rate_limiter_ip_limit() {
    let mut limiter = RateLimiter::new();
    let ip = localhost();
    let endpoint = "/v5/pocket/login";

    for _ in 0..5 {
        assert!(limiter.check_ip_rate(ip, endpoint, NOW));
    }

    assert!(!limiter.check_ip_rate(ip, endpoint, NOW));
}

#[test]
fn test_rate_limiter_session_limit() {
    let mut limiter = RateLimiter::new();
    let session_id = "test_session_123";
    let endpoint = "/v5/pocket/login";

    for _ in 0..5 {
        assert!(limiter.check_session_rate(session_id, endpoint, NOW));
    }

    assert!(!limiter.check_session_rate(session_id, endpoint, NOW));
}

#[test]
fn test_different_endpoints_separate_limits() {
    let mut limiter = RateLimiter::new();
    let ip = localhost();

    for _ in 0..5 {
        assert!(limiter.check_ip_rate(ip, "/v5/pocket/login", NOW));
    }
    assert!(!limiter.check_ip_rate(ip, "/v5/pocket/login", NOW));

    assert!(limiter.check_ip_rate(ip, "/v5/pocket/registration", NOW));
}

#[test]
fn test_request_entry_expiration() {
    let mut entry = RequestEntry::new(NOW);

    entry.window_start = NOW - 400;

    assert!(entry.is_expired(300, NOW));
}

#[test]
fn test_rate_limiter_global_instance() {
    let mut limiter = RateLimiter::new();
    let ip = ClientIp::V4(0xc0a8_0101);
    let endpoint = "/v5/pocket/test";

    assert!(limiter.check_ip_rate(ip, endpoint, NOW));
}

#[test]
fn request_entry_window_edges() {
    let entry = RequestEntry::new(NOW);
    assert_eq!(entry.count, 1);
    assert!(!entry.is_expired(300, NOW + 299));
    assert!(entry.is_expired(300, NOW + 300));
    assert!(entry.is_expired(300, NOW - 1));
    let mut e = entry;
    e.increment();
    assert_eq!(e.count, 2);
    e.reset_window(NOW + 10);
    assert_eq!(e, RequestEntry { count: 1, window_start: NOW + 10 });
}

#[test]
fn window_resets_after_expiry() {
    let mut limiter = RateLimiter::new();
    let ip = localhost();
    let limit = RateLimit::new(5, 300);
    for i in 0..5 {
        assert!(limiter.check_rate_internal(Scope::Ip(ip), "/x", &limit, NOW + i));
    }
    assert!(!limiter.check_rate_internal(Scope::Ip(ip), "/x", &limit, NOW + 299));
    assert!(limiter.check_rate_internal(Scope::Ip(ip), "/x", &limit, NOW + 300));
    // a fresh window holds one request: four more pass, then refusal
    for _ in 0..4 {
        assert!(limiter.check_rate_internal(Scope::Ip(ip), "/x", &limit, NOW + 301));
    }
    assert!(!limiter.check_rate_internal(Scope::Ip(ip), "/x", &limit, NOW + 301));
}

#[test]
fn endpoint_limits_table() {
    let limiter = RateLimiter::new();
    assert_eq!(limiter.get_endpoint_limit("/v5/pocket/login"), RateLimit::new(5, 300));
    assert_eq!(limiter.get_endpoint_limit("/v5/pocket/registration"), RateLimit::new(3, 3600));
    assert_eq!(limiter.get_endpoint_limit("/v5/pocket/change_passwd"), RateLimit::new(6, 3600));
    assert_eq!(limiter.get_endpoint_limit("/v5/pocket/heartbeat"), RateLimit::new(12, 60));
    assert_eq!(limiter.get_endpoint_limit("/v5/pocket/data"), RateLimit::new(1000, 3600));
    assert_eq!(limiter.get_endpoint_limit("/other"), RateLimit::new(100, 3600));
    assert_eq!(RateLimit::registration_limit(), RateLimit::new(3, 3600));
    assert_eq!(RateLimit::password_change_limit(), RateLimit::new(6, 3600));
    assert_eq!(RateLimit::api_limit(), RateLimit::new(1000, 3600));
    assert_eq!(RateLimit::heartbeat_limit(), RateLimit::new(12, 60));
}

#[test]
fn dual_scope_ip_rejection_skips_session_check() {
    let mut limiter = RateLimiter::new();
    let ip = localhost();
    for _ in 0..5 {
        assert_eq!(check_rate_limit_or_reject(&mut limiter, ip, "/v5/pocket/login", None, NOW), None);
    }
    let r = check_rate_limit_or_reject(&mut limiter, ip, "/v5/pocket/login", Some("sid"), NOW);
    assert_eq!(r, Some(RateLimitRejection::Ip));
    assert_eq!(r.unwrap().retry_after(), 60);
    assert_eq!(r.unwrap().message(), "Rate limit exceeded. Too many requests from your IP.");
    // the session counter was never touched: five session requests still pass
    for _ in 0..5 {
        assert!(limiter.check_session_rate("sid", "/v5/pocket/login", NOW));
    }
}

#[test]
fn dual_scope_session_rejection() {
    let mut limiter = RateLimiter::new();
    for _ in 0..5 {
        assert!(limiter.check_session_rate("sid", "/v5/pocket/login", NOW));
    }
    let other_ip = ClientIp::V6(1);
    let r = check_rate_limit_or_reject(&mut limiter, other_ip, "/v5/pocket/login", Some("sid"), NOW);
    assert_eq!(r, Some(RateLimitRejection::Session));
    assert_eq!(r.unwrap().message(), "Rate limit exceeded. Too many requests for this session.");
    assert_eq!(check_rate_limit_or_reject(&mut limiter, other_ip, "/v5/pocket/login", Some("other"), NOW), None);
}

#[test]
fn purge_drops_only_old_counters() {
    let mut limiter = RateLimiter::new();
    let ip = localhost();
    let limit = RateLimit::new(1, 10_000);
    assert!(limiter.check_rate_internal(Scope::Ip(ip), "/old", &limit, NOW));
    assert!(limiter.check_rate_internal(Scope::Ip(ip), "/new", &limit, NOW + 3000));
    limiter.purge_expired(NOW + 3600);
    // "/old" is gone, so it admits again; "/new" is still counted
    assert!(limiter.check_rate_internal(Scope::Ip(ip), "/old", &limit, NOW + 3600));
    assert!(!limiter.check_rate_internal(Scope::Ip(ip), "/new", &limit, NOW + 3600));
}
