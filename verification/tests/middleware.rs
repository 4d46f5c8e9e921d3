use hyrule::handlers::HttpStatus;
use hyrule::middleware::csrf::{
    check_referer, cookie_value, csrf_protection, double_submit_csrf, CsrfProtection,
};
use hyrule::middleware::rate_limit::{
    extract_client_id, limits_for_path, PerUserRateLimiter, RateLimiter,
};
use rand::RngCore;

fn random_bytes() -> Vec<u8> {
    let mut bytes = vec![0u8; 32];
    rand::thread_rng().fill_bytes(&mut bytes);
    bytes
}

#[test]
fn test_rate_limiting() {
    let mut limiter = RateLimiter::new(5, 60);
    for _ in 0..5 {
        assert!(limiter.check("test_client", 100).is_ok());
    }
    assert!(limiter.check("test_client", 100).is_err());
}

#[test]
fn test_window_reset() {
    let mut limiter = RateLimiter::new(2, 1);
    assert!(limiter.check("test", 10).is_ok());
    assert!(limiter.check("test", 10).is_ok());
    assert!(limiter.check("test", 10).is_err());
    assert!(limiter.check("test", 12).is_ok());
}

#[test]
fn window_of_exactly_its_length_is_still_open() {
    let mut limiter = RateLimiter::new(1, 60);
    assert!(limiter.check("a", 0).is_ok());
    assert!(limiter.check("a", 60).is_err());
    assert!(limiter.check("a", 61).is_ok());
    assert!(limiter.check("b", 61).is_ok());
    limiter.cleanup(200);
    assert!(limiter.check("a", 200).is_ok());
}

#[test]
fn clock_that_steps_back_does_not_open_a_window() {
    let mut limiter = RateLimiter::new(1, 10);
    assert!(limiter.check("a", 100).is_ok());
    assert!(limiter.check("a", 50).is_err());
}

#[test]
fn each_user_has_a_limiter_of_its_own() {
    let mut limiters = PerUserRateLimiter::new();
    assert!(limiters.check(7, 1, 60, 0).is_ok());
    assert!(limiters.check(7, 1, 60, 1).is_err());
    assert!(limiters.check(-8, 1, 60, 1).is_ok());
    assert!(limiters.check(7, 5, 60, 2).is_err());
    assert!(limiters.check(7, 5, 60, 61).is_ok());
}

#[test]
fn limits_depend_on_the_path() {
    assert_eq!(limits_for_path("/api/auth/login"), (10, 300));
    assert_eq!(limits_for_path("/api/repos"), (100, 60));
    assert_eq!(limits_for_path("/api"), (300, 60));
    assert_eq!(limits_for_path("/explore"), (300, 60));
}

#[test]
fn client_id_comes_from_the_proxy_headers() {
    assert_eq!(extract_client_id(Some(" 10.0.0.1 , 10.0.0.2"), Some("10.9.9.9")), "10.0.0.1");
    assert_eq!(extract_client_id(Some("10.0.0.1"), None), "10.0.0.1");
    assert_eq!(extract_client_id(Some(""), Some("10.9.9.9")), "");
    assert_eq!(extract_client_id(None, Some("10.9.9.9")), "10.9.9.9");
    assert_eq!(extract_client_id(None, None), "unknown");
}

#[test]
fn test_csrf_token_generation() {
    let mut csrf = CsrfProtection::new();
    let token1 = csrf.generate_token("session1", &random_bytes(), 0);
    let token2 = csrf.generate_token("session2", &random_bytes(), 0);
    assert_ne!(token1, token2);
    assert_eq!(token1.len(), 43);
}

#[test]
fn test_csrf_token_validation() {
    let mut csrf = CsrfProtection::new();
    let token = csrf.generate_token("session1", &random_bytes(), 0);
    assert!(csrf.validate_token("session1", &token, 0));
    assert!(!csrf.validate_token("session1", "wrong_token", 0));
    assert!(!csrf.validate_token("wrong_session", &token, 0));
}

#[test]
fn csrf_token_is_url_safe_base64_and_expires() {
    let mut csrf = CsrfProtection::new();
    let token = csrf.generate_token("s", &[0xfb, 0xff, 0xfe], 100);
    assert_eq!(token, "-__-");
    assert!(csrf.validate_token("s", "-__-", 3700));
    assert!(!csrf.validate_token("s", "-__-", 3701));
    let newer = csrf.generate_token("s", &[0, 0, 0], 200);
    assert_eq!(newer, "AAAA");
    assert!(!csrf.validate_token("s", "-__-", 200));
    assert!(csrf.validate_token("s", "AAAA", 200));
    csrf.cleanup_expired(3800);
    assert!(!csrf.validate_token("s", "AAAA", 3800));
}

#[test]
fn cookies_are_read_by_name() {
    assert_eq!(cookie_value("session_id=abc", "session_id"), Some("abc".to_string()));
    assert_eq!(
        cookie_value("theme=dark; session_id=abc=def ; x=y", "session_id"),
        Some("abc=def".to_string())
    );
    assert_eq!(cookie_value("theme=dark;session_id=", "session_id"), Some(String::new()));
    assert_eq!(cookie_value("theme=dark; session_id", "session_id"), None);
    assert_eq!(cookie_value("xsession_id=abc", "session_id"), None);
    assert_eq!(cookie_value("", "session_id"), None);
    assert_eq!(
        cookie_value("session_id=first; session_id=second", "session_id"),
        Some("first".to_string())
    );
}

#[test]
fn state_changing_requests_need_session_and_token() {
    assert_eq!(csrf_protection("GET", "/repos/new", None, None), Ok(()));
    assert_eq!(csrf_protection("POST", "/git/abc/git-receive-pack", None, None), Ok(()));
    assert_eq!(csrf_protection("POST", "/api/auth/login", None, None), Ok(()));
    assert_eq!(csrf_protection("POST", "/repos/new", None, Some("t")), Err(HttpStatus::Forbidden));
    assert_eq!(
        csrf_protection("POST", "/repos/new", Some("session_id=s"), None),
        Err(HttpStatus::Forbidden)
    );
    assert_eq!(csrf_protection("DELETE", "/repos/x", Some("session_id=s"), Some("t")), Ok(()));
}

#[test]
fn double_submit_compares_cookie_and_header() {
    assert_eq!(double_submit_csrf("GET", None, None), Ok(()));
    assert_eq!(double_submit_csrf("POST", Some("csrf_token=abc"), Some("abc")), Ok(()));
    assert_eq!(
        double_submit_csrf("POST", Some("csrf_token=abc"), Some("abd")),
        Err(HttpStatus::Forbidden)
    );
    assert_eq!(double_submit_csrf("PUT", None, Some("abc")), Err(HttpStatus::Forbidden));
    assert_eq!(double_submit_csrf("PATCH", Some("csrf_token=abc"), None), Err(HttpStatus::Forbidden));
}

#[test]
fn referer_of_another_origin_is_refused() {
    assert_eq!(check_referer("POST", Some("http://localhost:3000"), "http://localhost:3000"), Ok(()));
    assert_eq!(
        check_referer("POST", Some("http://evil.example"), "http://localhost:3000"),
        Err(HttpStatus::Forbidden)
    );
    assert_eq!(check_referer("POST", None, "http://localhost:3000"), Ok(()));
    assert_eq!(check_referer("GET", Some("http://evil.example"), "http://localhost:3000"), Ok(()));
}

#[test]
fn one_window_lets_through_exactly_the_maximum() {
    let mut limiter = RateLimiter::new(3, 60);
    let times = [100u64, 101, 130, 159, 160, 160];
    let mut let_through = 0;
    for (i, t) in times.iter().enumerate() {
        let verdict = limiter.check("client", *t);
        assert_eq!(verdict.is_ok(), i < 3);
        if verdict.is_ok() {
            let_through += 1;
        }
    }
    assert_eq!(let_through, 3);
    assert!(limiter.check("client", 161).is_ok());
}
