use hyrule::auth::jwt::{check_claims, claims_for, token_shape_ok, TokenFault};
use hyrule::auth::session::{generate_session_id, session_user, SessionStore, SessionUser};
use hyrule::auth::{bearer_token, Claims};
use hyrule::config::{Config, ConfigError};
use hyrule::handlers::git_http::{advertisement, format_packet, git_command};
use hyrule::handlers::git_http_complete::{format_pkt_line, info_refs_access};
use hyrule::handlers::HttpStatus;
use hyrule::middleware::security::{
    attack_prevention, origin_allowed, request_size_limit, security_headers,
    suspicious_user_agent, validate_security_config,
};
use hyrule::models::Repository;
use hyrule::routes::TagWithCount;
use hyrule::templates::layout::{nav_link, render_page, render_page_with_user};
use hyrule::templates::{self, date_text, html_escape, in_units, short_text};

fn repo(hash: &str, name: &str, size: i64) -> Repository {
    Repository {
        repo_hash: hash.to_string(),
        owner_id: 1,
        name: name.to_string(),
        description: None,
        size,
        storage_tier: "free".to_string(),
        is_private: 0,
        created_at: 0,
        last_updated: 1_700_000_000,
    }
}

#[test]
fn page_frames_title_links_and_content() {
    let page = render_page("Title", "<p>body</p>");
    assert!(page.starts_with("<!DOCTYPE html>\n<html lang=\"en\">"));
    assert!(page.contains("<title>Title - Hyrule</title>"));
    assert!(page.contains("<a href=\"/login\">Login</a>"));
    assert!(page.contains("            <p>body</p>\n"));
    assert!(page.ends_with("</body>\n</html>"));
    let user = render_page_with_user("T", "c", Some("zelda"));
    assert!(user.contains("<span class=\"logged-in-indicator\">🟢 zelda</span>"));
    assert!(!user.contains("<a href=\"/admin\">Admin</a>"));
    assert!(!user.contains("<a href=\"/login\">Login</a>"));
    let admin = render_page_with_user("T", "c", Some("Link"));
    assert!(admin.contains("<a href=\"/admin\">Admin</a>"));
}

#[test]
fn nav_link_marks_the_active_page() {
    assert_eq!(nav_link("/x", "X", true), "<a href=\"/x\" class=\"nav-link active\">X</a>");
    assert_eq!(nav_link("/x", "X", false), "<a href=\"/x\" class=\"nav-link\">X</a>");
}

#[test]
fn html_escape_replaces_four_characters() {
    assert_eq!(html_escape("a<b>&\"c'/"), "a&lt;b&gt;&amp;&quot;c'/");
}

#[test]
fn static_pages_are_framed() {
    assert_eq!(
        templates::about::render(),
        render_page("About", templates::about::CONTENT)
    );
    assert_eq!(templates::docs::render(), render_page("Documentation", templates::docs::CONTENT));
    assert_eq!(templates::signup::render(), render_page("Sign Up", templates::signup::CONTENT));
    assert_eq!(
        templates::create_repo::render(),
        render_page("Create Repository", templates::create_repo::CONTENT)
    );
    assert!(templates::index::render_with_user(None).contains("Privacy-First Git Hosting"));
    let login = templates::login::render(Some("Account created"));
    assert!(login.contains("<div class=\"success-message\">✅ Account created</div>"));
    assert!(login.contains(".success-message {\n"));
    assert!(!templates::login::render(None).contains("<div class=\"success-message\">"));
}

#[test]
fn repo_card_shows_short_hash_and_size() {
    let card = templates::search::render_repo_card(&repo(
        "abcdef1234567890abcdef1234567890abcdef12",
        "demo",
        10 * 1024 + 1023,
    ));
    assert!(card.contains("<a href=\"/r/abcdef1234567890abcdef1234567890abcdef12\">demo</a>"));
    assert!(card.contains("<p class=\"repo-description\">No description provided</p>"));
    assert!(card.contains("<code class=\"repo-hash\">abcdef1234567890</code>"));
    assert!(card.contains("                10 KB\n"));
}

#[test]
fn list_pages_join_their_rows() {
    let repos = vec![repo("aaaa", "one", 0), repo("bbbb", "two", 2048)];
    let page = templates::search::render(&repos, "o");
    assert!(page.contains("Found 2 repositories for \"o\""));
    let first = templates::search::render_repo_card(&repos[0]);
    let second = templates::search::render_repo_card(&repos[1]);
    assert!(page.contains(&format!("{}\n{}", first, second)));
    assert!(templates::search::render(&Vec::new(), "zz")
        .contains("No repositories found for \"zz\""));
    let dash = templates::dashboard::render(&repos);
    assert!(dash.contains("🌐 Public"));
    assert!(dash.contains("Updated 2023-11-14"));
    assert!(templates::dashboard::render(&Vec::new())
        .contains("You haven't created any repositories yet."));
    let tags = templates::tags::render(&vec![TagWithCount { tag: "rust".to_string(), count: 3 }]);
    assert!(tags.contains("<a href=\"/search?tag=rust\" class=\"tag-card\">"));
    assert!(tags.contains("<span class=\"tag-count\">3 repos</span>"));
    assert!(templates::explore::render(&repos).contains("2023-11-14"));
    assert!(templates::starred::render(&repos).contains(&first));
    assert!(templates::pinned::render(&repos).contains("aaaa"));
    let clone = templates::clone_page::render(&repos[0], "http://h:1");
    assert!(clone.contains("http://h:1/git/aaaa.git"));
    assert!(clone.contains("<title>Clone - one - Hyrule</title>"));
}

#[test]
fn helpers_format_numbers_and_dates() {
    assert_eq!(short_text("abcdef", 4), "abcd");
    assert_eq!(short_text("ab", 4), "ab");
    assert_eq!(in_units(2047, 1024), "1");
    assert_eq!(in_units(-2047, 1024), "-1");
    assert_eq!(in_units(0, 1024), "0");
    assert_eq!(date_text(0), "1970-01-01");
    assert_eq!(date_text(86399), "1970-01-01");
    assert_eq!(date_text(86400), "1970-01-02");
    assert_eq!(date_text(-1), "1969-12-31");
    assert_eq!(date_text(951782400), "2000-02-29");
    assert_eq!(date_text(1_700_000_000), "2023-11-14");
    assert_eq!(date_text(-62135596800), "0001-01-01");
    assert_eq!(date_text(253402300799), "9999-12-31");
}

#[test]
fn packets_carry_their_length_in_hex() {
    assert_eq!(format_packet("# service=git-upload-pack\n"), "001e# service=git-upload-pack\n");
    assert_eq!(format_pkt_line(""), "0004");
    assert_eq!(format_pkt_line(&"a".repeat(70000)).len(), 70005);
    assert!(format_pkt_line(&"a".repeat(70000)).starts_with("11174a"));
    assert_eq!(git_command("git-upload-pack"), Ok("upload-pack"));
    assert_eq!(git_command("git-receive-pack"), Ok("receive-pack"));
    assert_eq!(git_command("git-shell"), Err(HttpStatus::BadRequest));
    assert_eq!(
        advertisement("git-upload-pack", b"refs"),
        b"001e# service=git-upload-pack\n0000refs".to_vec()
    );
    assert_eq!(info_refs_access(1, 0, "git-upload-pack", None), Ok(()));
    assert_eq!(info_refs_access(1, 0, "git-receive-pack", None), Err(HttpStatus::Unauthorized));
    assert_eq!(info_refs_access(1, 1, "git-upload-pack", Some(2)), Err(HttpStatus::Forbidden));
    assert_eq!(info_refs_access(1, 1, "git-receive-pack", Some(1)), Ok(()));
}

#[test]
fn settings_fall_back_to_their_defaults() {
    let config = Config::from_values(None, None, None, None, None, None).unwrap();
    assert_eq!(config.database_url, "sqlite://hyrule.db");
    assert_eq!(config.host, "0.0.0.0");
    assert_eq!(config.port, 3000);
    assert_eq!(config.default_storage_quota, 1073741824);
    assert_eq!(config.min_replica_count, 3);
    assert_eq!(config.node_heartbeat_timeout_minutes, 10);
    assert_eq!(config.server_addr_text(), "0.0.0.0:3000");
    let set = |v: &str| Some(v.to_string());
    let config =
        Config::from_values(set("db"), set("h"), set("+80"), set("-5"), set("007"), set("1"))
            .unwrap();
    assert_eq!((config.port, config.default_storage_quota, config.min_replica_count), (80, -5, 7));
    let bad = |r: Result<Config, ConfigError>| r.err();
    assert_eq!(
        bad(Config::from_values(None, None, set("65536"), None, None, None)),
        Some(ConfigError::Port)
    );
    assert_eq!(
        bad(Config::from_values(None, None, set("-1"), None, None, None)),
        Some(ConfigError::Port)
    );
    assert_eq!(
        bad(Config::from_values(None, None, None, set("9223372036854775808"), None, None)),
        Some(ConfigError::DefaultStorageQuota)
    );
    assert_eq!(
        bad(Config::from_values(None, None, None, None, set("3 "), None)),
        Some(ConfigError::MinReplicaCount)
    );
    assert_eq!(
        bad(Config::from_values(None, None, None, None, None, set(""))),
        Some(ConfigError::NodeHeartbeatTimeout)
    );
    assert_eq!(
        Config::from_values(None, None, None, set("-9223372036854775808"), None, None)
            .unwrap()
            .default_storage_quota,
        i64::MIN
    );
}

#[test]
fn security_checks_turn_attacks_away() {
    assert_eq!(security_headers(false).len(), 7);
    let with_hsts = security_headers(true);
    assert_eq!(with_hsts.len(), 8);
    assert_eq!(with_hsts[0].name, "x-frame-options");
    assert_eq!(with_hsts[0].value, "DENY");
    assert_eq!(with_hsts[6].name, "strict-transport-security");
    assert_eq!(with_hsts[7].value, "Hyrule-Secure-1.0");
    assert!(origin_allowed("http://a, http://b ,http://c", "http://b"));
    assert!(!origin_allowed("http://a, http://b", "http://"));
    assert!(origin_allowed("", ""));
    assert_eq!(request_size_limit(Some("104857600")), Ok(()));
    assert_eq!(request_size_limit(Some("104857601")), Err(HttpStatus::PayloadTooLarge));
    assert_eq!(request_size_limit(Some("lots")), Ok(()));
    assert_eq!(request_size_limit(None), Ok(()));
    assert!(suspicious_user_agent("Mozilla SQLMap/1.0"));
    assert!(suspicious_user_agent("nmap"));
    assert!(!suspicious_user_agent("Mozilla/5.0"));
    assert!(!suspicious_user_agent("sqlmap\u{e9}"));
    assert_eq!(attack_prevention(Some("Nikto"), &vec![]), Err(HttpStatus::Forbidden));
    assert_eq!(
        attack_prevention(Some("curl"), &vec!["ok".to_string(), "a\r\nb".to_string()]),
        Err(HttpStatus::BadRequest)
    );
    assert_eq!(attack_prevention(None, &vec!["ok".to_string()]), Ok(()));
    let secret = "0123456789abcdef0123456789abcdef";
    assert_eq!(validate_security_config(Some(secret), Some("http://a,http://b")), Ok(()));
    assert_eq!(
        validate_security_config(None, None),
        Err("CRITICAL: JWT_SECRET environment variable must be set")
    );
    assert_eq!(
        validate_security_config(Some("short"), None),
        Err("JWT_SECRET must be at least 32 characters long")
    );
    assert_eq!(
        validate_security_config(Some(secret), Some("http://a, ,http://b")),
        Err("ALLOWED_ORIGINS contains empty value")
    );
    assert_eq!(
        validate_security_config(Some(secret), Some("")),
        Err("ALLOWED_ORIGINS contains empty value")
    );
}

#[test]
fn sessions_last_a_day() {
    let mut store = SessionStore::new();
    let id = generate_session_id(&[0xab, 0x01, 0xff]);
    assert_eq!(id, "ab01ff");
    assert_eq!(store.create_session(id.clone(), 7, "zelda".to_string(), 1000), "ab01ff");
    let session = store.get_session("ab01ff", 1000 + 86400).unwrap();
    assert_eq!((session.user_id, session.username.as_str(), session.expires_at), (7, "zelda", 87400));
    assert!(store.get_session("ab01ff", 87401).is_none());
    assert!(store.get_session("other", 1000).is_none());
    let user = session_user(Some(&store), Some("ab01ff"), true, 2000).unwrap();
    assert_eq!(user.user_id, 7);
    assert!(!user.is_admin());
    assert!(SessionUser { user_id: 1, username: "admin".to_string() }.is_admin());
    assert!(SessionUser { user_id: 1, username: "Link".to_string() }.is_admin());
    assert!(!SessionUser { user_id: 1, username: "link".to_string() }.is_admin());
    assert_eq!(
        session_user(None, Some("ab01ff"), true, 2000).err(),
        Some(HttpStatus::InternalServerError)
    );
    assert_eq!(
        session_user(Some(&store), None, true, 2000).err(),
        Some(HttpStatus::Unauthorized)
    );
    store.cleanup_expired(87400);
    assert!(store.get_session("ab01ff", 1000).is_none());
    store.create_session("x".to_string(), 1, "a".to_string(), 0);
    store.delete_session("x");
    assert!(store.get_session("x", 0).is_none());
}

#[test]
fn claims_are_checked_after_the_signature() {
    let claims = claims_for(1, "testuser", 1000);
    assert_eq!((claims.sub, claims.iat, claims.exp), (1, 1000, 87400));
    assert_eq!(check_claims(&claims, 1000), Ok(()));
    assert_eq!(check_claims(&claims, 1000 + 49 * 3600 - 1), Ok(()));
    assert_eq!(check_claims(&claims, 1000 + 49 * 3600), Err(TokenFault::ExpiredSignature));
    assert_eq!(check_claims(&claims, 999), Err(TokenFault::ExpiredSignature));
    let bad_name = Claims { sub: 1, username: "test<script>".to_string(), exp: 10, iat: 0 };
    assert_eq!(check_claims(&bad_name, 0), Err(TokenFault::InvalidToken));
    let no_user = Claims { sub: 0, username: "a".to_string(), exp: 10, iat: 0 };
    assert_eq!(check_claims(&no_user, 0), Err(TokenFault::InvalidToken));
    let other_script = Claims { sub: 1, username: "z\u{e9}lda_\u{0663}-".to_string(), exp: 10, iat: 0 };
    assert_eq!(check_claims(&other_script, 0), Ok(()));
    assert!(token_shape_ok("a.b.c"));
    assert!(!token_shape_ok(""));
    assert!(!token_shape_ok(&"a".repeat(2049)));
    assert_eq!(bearer_token("Bearer abc"), Some("abc".to_string()));
    assert_eq!(bearer_token("Bearer "), Some(String::new()));
    assert_eq!(bearer_token("bearer abc"), None);
    assert_eq!(bearer_token("Basic abc"), None);
}

#[test]
fn test_token_validation() {
    assert!(hyrule::auth::jwt::secret_is_strong(
        "test_secret_key_minimum_32_characters_long_12345"
    ));
    let claims = claims_for(1, "testuser", 1_700_000_000);
    assert_eq!(check_claims(&claims, 1_700_000_000), Ok(()));
    assert_eq!(claims.sub, 1);
    assert_eq!(claims.username, "testuser");
}

#[test]
fn test_invalid_username() {
    let claims = claims_for(1, "test<script>", 1_700_000_000);
    assert!(check_claims(&claims, 1_700_000_000).is_err());
}

#[test]
fn test_security_headers_added() {
    let headers = security_headers(false);
    let named = |name: &str| headers.iter().any(|h| h.name == name);
    assert!(named("x-frame-options"));
    assert!(named("x-content-type-options"));
    assert!(named("content-security-policy"));
    assert!(!named("strict-transport-security"));
    assert!(security_headers(true).iter().any(|h| h.name == "strict-transport-security"));
}

#[test]
fn times_are_written_in_utc_or_as_seconds() {
    assert_eq!(hyrule::templates::minute_text(0), "1970-01-01 00:00");
    assert_eq!(hyrule::templates::minute_text(1_700_000_000), "2023-11-14 22:13");
    assert_eq!(hyrule::templates::datetime_text(1_700_000_000), "2023-11-14 22:13:20");
    assert_eq!(hyrule::templates::datetime_text(-1), "1969-12-31 23:59:59");
    assert_eq!(date_text(253402300800), "+10000-01-01");
    assert_eq!(date_text(i64::MAX), i64::MAX.to_string());
    assert_eq!(date_text(i64::MIN), i64::MIN.to_string());
    assert_eq!(hyrule::templates::minute_text(i64::MAX), "9223372036854775807");
}
