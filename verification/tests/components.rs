use fanout::auth::{decide_login, Claims, LoginDecision, TOKEN_LIFETIME_SECS};
use fanout::config::{
    parse_bool_flag, parse_u16, parse_u32, parse_u64, parse_usize, DbSettings, Settings,
};
use fanout::guard::TimeoutGuard;
use fanout::limiter::ConcurrencyLimiter;
use fanout::models::{CreateUser, LoginRequest, LoginResponse, UpdateUser, User};
use fanout::outcome::{FetchOutcome, GuardEvent};
use fanout::policy::{ConfigError, Policy};
use fanout::token::TokenService;

#[test]
fn limiter_grants_at_most_capacity_permits() {
    let mut limiter = ConcurrencyLimiter::new(2);
    assert!(limiter.try_acquire());
    assert!(limiter.try_acquire());
    assert!(!limiter.try_acquire());
    limiter.release();
    assert!(limiter.try_acquire());
    assert!(!limiter.try_acquire());
}

#[test]
fn guard_maps_each_race_report_to_its_outcome() {
    let ok: FetchOutcome<u64, u64, String> = TimeoutGuard::resolve_race(0, 5, GuardEvent::OpOk(9));
    assert_eq!(ok, FetchOutcome::Success { position: 0, key: 5, value: 9 });
    let err: FetchOutcome<u64, u64, String> =
        TimeoutGuard::resolve_race(1, 6, GuardEvent::OpErr(String::from("down")));
    assert_eq!(
        err,
        FetchOutcome::Failure { position: 1, key: 6, error: String::from("down") }
    );
    let late: FetchOutcome<u64, u64, String> =
        TimeoutGuard::resolve_race(2, 7, GuardEvent::TimerFired);
    assert_eq!(late, FetchOutcome::TimedOut { position: 2, key: 7 });
}

#[test]
fn policy_validation_reports_the_offending_field() {
    let ok = Policy { max_concurrency: 1, per_item_timeout_ms: 1, fail_fast: false };
    assert_eq!(ok.validate(), Ok(()));
    let no_permits = Policy { max_concurrency: 0, per_item_timeout_ms: 5, fail_fast: false };
    assert_eq!(no_permits.validate(), Err(ConfigError::ZeroMaxConcurrency));
    let no_deadline = Policy { max_concurrency: 5, per_item_timeout_ms: 0, fail_fast: true };
    assert_eq!(no_deadline.validate(), Err(ConfigError::ZeroTimeout));
}

#[test]
fn parse_u64_accepts_exactly_fitting_digit_strings() {
    assert_eq!(parse_u64("0"), Some(0));
    assert_eq!(parse_u64("123"), Some(123));
    assert_eq!(parse_u64("007"), Some(7));
    assert_eq!(parse_u64("18446744073709551615"), Some(u64::MAX));
    assert_eq!(parse_u64("18446744073709551616"), None);
    assert_eq!(parse_u64(""), None);
    assert_eq!(parse_u64("12a"), None);
    assert_eq!(parse_u64("-3"), None);
    assert_eq!(parse_u64(" 5"), None);
}

#[test]
fn narrower_parsers_enforce_their_ranges() {
    assert_eq!(parse_u16("65535"), Some(u16::MAX));
    assert_eq!(parse_u16("65536"), None);
    assert_eq!(parse_u32("4294967295"), Some(u32::MAX));
    assert_eq!(parse_u32("4294967296"), None);
    assert_eq!(parse_usize("1433"), Some(1433));
    assert_eq!(parse_usize(""), None);
}

#[test]
fn bool_flags_accept_the_four_spellings_only() {
    assert!(parse_bool_flag("1"));
    assert!(parse_bool_flag("true"));
    assert!(parse_bool_flag("True"));
    assert!(parse_bool_flag("yes"));
    assert!(!parse_bool_flag("0"));
    assert!(!parse_bool_flag("false"));
    assert!(!parse_bool_flag("TRUE"));
    assert!(!parse_bool_flag("yes "));
    assert!(!parse_bool_flag(""));
}

fn sample_settings() -> Settings {
    Settings {
        db: DbSettings {
            user: Some(String::from("app")),
            password: Some(String::from("pw")),
            host: Some(String::from("127.0.0.1")),
            port: 1433,
            database: Some(String::from("app")),
            min_connections: 1,
            max_connections: 10,
            acquire_timeout_secs: 30,
            encrypt: true,
            trust_server_certificate: true,
        },
        port: 8080,
        jwt_secret: String::from("pw"),
        concurrency_limit: 20,
        db_query_timeout_secs: 5,
        fail_fast: false,
    }
}

#[test]
fn settings_select_the_batch_policy() {
    let settings = sample_settings();
    let policy = settings.policy();
    assert_eq!(policy.max_concurrency, 20);
    assert_eq!(policy.per_item_timeout_ms, 5000);
    assert!(!policy.fail_fast);
}

#[test]
fn settings_timeout_saturates_instead_of_overflowing() {
    let mut settings = sample_settings();
    settings.db_query_timeout_secs = u64::MAX;
    assert_eq!(settings.policy().per_item_timeout_ms, u64::MAX);
}

fn sample_user() -> User {
    User {
        id: 42,
        username: String::from("ana"),
        email: Some(String::from("ana@example.com")),
        password_hash: String::from("pw"),
    }
}

#[test]
fn apply_update_replaces_requested_fields_only() {
    let user = sample_user();
    let update = UpdateUser {
        username: Some(String::from("ana2")),
        email: None,
        password: Some(String::from("pw")),
    };
    let updated = user.apply_update(update, Some(String::from("newhash")));
    assert_eq!(updated.id, 42);
    assert_eq!(updated.username, "ana2");
    assert_eq!(updated.email.as_deref(), Some("ana@example.com"));
    assert_eq!(updated.password_hash, "newhash");
}

#[test]
fn apply_update_with_no_fields_keeps_the_record() {
    let user = sample_user();
    let update = UpdateUser { username: None, email: None, password: None };
    let updated = user.clone().apply_update(update, None);
    assert_eq!(updated.id, user.id);
    assert_eq!(updated.username, user.username);
    assert_eq!(updated.email, user.email);
    assert_eq!(updated.password_hash, user.password_hash);
}

#[test]
fn apply_update_defaults_a_missing_email_to_empty() {
    let mut user = sample_user();
    user.email = None;
    let update = UpdateUser { username: None, email: None, password: None };
    let updated = user.apply_update(update, None);
    assert_eq!(updated.email.as_deref(), Some(""));
}

#[test]
fn login_is_authorized_only_for_a_found_user_with_matching_password() {
    let user = sample_user();
    assert_eq!(
        decide_login(&Some(user.clone()), true),
        LoginDecision::Authorized { user_id: 42 }
    );
    assert_eq!(decide_login(&Some(user), false), LoginDecision::InvalidCredentials);
    assert_eq!(decide_login(&None, false), LoginDecision::InvalidCredentials);
}

#[test]
fn issued_claims_expire_one_lifetime_after_issue() {
    let user = sample_user();
    let claims = Claims::issued(&user, 1_000_000);
    assert_eq!(claims.sub, 42);
    assert_eq!(claims.exp, 1_000_000 + TOKEN_LIFETIME_SECS);
}

#[test]
fn bearer_token_is_the_second_part_after_the_scheme() {
    assert_eq!(
        TokenService::extract_token_from_header("Bearer abc"),
        Some(String::from("abc"))
    );
    assert_eq!(
        TokenService::extract_token_from_header("  bearer   tok123  "),
        Some(String::from("tok123"))
    );
    assert_eq!(
        TokenService::extract_token_from_header("BEARER x y"),
        Some(String::from("x"))
    );
}

#[test]
fn bearer_extraction_rejects_other_shapes() {
    assert_eq!(TokenService::extract_token_from_header("Basic abc"), None);
    assert_eq!(TokenService::extract_token_from_header("Bearer"), None);
    assert_eq!(TokenService::extract_token_from_header("Bearer "), None);
    assert_eq!(TokenService::extract_token_from_header(""), None);
    assert_eq!(TokenService::extract_token_from_header("Bearertok abc"), None);
}

#[test]
fn request_and_response_carry_their_fields() {
    let request = LoginRequest {
        username: String::from("ana"),
        password: String::from("pw"),
    };
    assert_eq!(request.username, "ana");
    let response = LoginResponse { token: String::from("abc") };
    assert_eq!(response.token, "abc");
    let create = CreateUser {
        username: String::from("ben"),
        email: None,
        password: String::from("pw"),
    };
    assert_eq!(create.username, "ben");
    assert_eq!(create.email, None);
}
