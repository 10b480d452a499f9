use quickblog::account::{
    check_signup, found_user, hash_password, hashed_outcome, login_outcome, normalize_email,
    stored_account, verified_outcome, verify_password, InsertOutcome, StoredUser,
};
use quickblog::config::{check_secret, cors_origin, listen_address};
use quickblog::errors::ApiError;
use quickblog::history::{history_item, history_items, HistoryRow};
use quickblog::summary::{
    begin_summary, check_article, summary_job, summary_request, summary_step, SummaryAction,
    SummaryEvent, SummaryJob, SummaryState,
};
use quickblog::token::{
    authenticated_user, bearer_token_of, token_at_clock, token_for, token_for_at, user_of_claims,
    ClaimFields, TOKEN_LIFETIME_SECS,
};
use quickblog::client::token_expiry;

const SECRET: &str = "0123456789abcdef0123456789abcdef";

#[test]
fn email_is_trimmed_and_lowercased() {
    assert_eq!(normalize_email("  Alice@Example.COM \t"), "alice@example.com");
    assert_eq!(normalize_email("\u{3000}Bob@X.org\u{a0}"), "bob@x.org");
}

#[test]
fn signup_accepts_valid_input() {
    let a = check_signup(" Someone@Mail.test ", "password1").ok().unwrap();
    assert_eq!(a.email, "someone@mail.test");
    assert_eq!(a.password, "password1");
}

#[test]
fn signup_rejects_missing_at_sign() {
    assert_eq!(check_signup("nobody.test", "password1").err(), Some(ApiError::InvalidSignup));
}

#[test]
fn signup_password_bounds_are_bytes() {
    assert!(check_signup("a@b", "1234567").is_err());
    assert!(check_signup("a@b", "12345678").is_ok());
    assert!(check_signup("a@b", &"x".repeat(72)).is_ok());
    assert!(check_signup("a@b", &"x".repeat(73)).is_err());
    // four two-byte characters make eight bytes
    assert!(check_signup("a@b", "éééé").is_ok());
    // 36 two-byte characters make 72 bytes, 37 make 74
    assert!(check_signup("a@b", &"é".repeat(36)).is_ok());
    assert!(check_signup("a@b", &"é".repeat(37)).is_err());
}

#[test]
fn signup_email_length_is_bounded() {
    let local = "a".repeat(252);
    assert!(check_signup(&format!("{local}@b"), "password1").is_ok());
    assert!(check_signup(&format!("{local}@bc"), "password1").is_err());
    assert_eq!(check_signup(&format!("{local}@bc"), "password1").err().unwrap().status(), 400);
}

#[test]
fn hashed_password_verifies() {
    let hash = hash_password("correct horse").ok().unwrap();
    assert!(verify_password("correct horse", &hash).is_ok());
    assert_eq!(verify_password("wrong horse", &hash), Err(ApiError::InvalidCredentials));
}

#[test]
fn only_a_matching_password_signs_in() {
    assert_eq!(login_outcome(Some(true)), Ok(()));
    assert_eq!(login_outcome(Some(false)), Err(ApiError::InvalidCredentials));
    assert_eq!(login_outcome(None), Err(ApiError::InvalidCredentials));
}

#[test]
fn malformed_hash_is_invalid_credentials() {
    assert_eq!(verify_password("anything", "not a hash"), Err(ApiError::InvalidCredentials));
}

#[test]
fn lost_blocking_tasks_fail() {
    assert_eq!(hashed_outcome(None), Err(ApiError::AccountCreationFailed));
    assert_eq!(hashed_outcome(Some(Ok("h".to_owned()))), Ok("h".to_owned()));
    assert_eq!(verified_outcome(None), Err(ApiError::SignInFailed));
    assert_eq!(verified_outcome(Some(Ok(()))), Ok(()));
}

#[test]
fn insert_failures_are_mapped() {
    assert_eq!(stored_account(InsertOutcome::Inserted(7)), Ok(7));
    assert_eq!(
        stored_account(InsertOutcome::Failed(Some("23505".to_owned()))),
        Err(ApiError::UserExists)
    );
    assert_eq!(ApiError::UserExists.status(), 409);
    assert_eq!(
        stored_account(InsertOutcome::Failed(Some("23503".to_owned()))),
        Err(ApiError::AccountCreationFailed)
    );
    assert_eq!(stored_account(InsertOutcome::Failed(None)), Err(ApiError::AccountCreationFailed));
}

#[test]
fn account_lookup_outcomes() {
    let u = found_user(Ok(Some(StoredUser { id: 3, password_hash: "h".to_owned() }))).ok().unwrap();
    assert_eq!(u.id, 3);
    assert!(matches!(found_user(Ok(None)), Err(ApiError::InvalidCredentials)));
    assert!(matches!(found_user(Err(())), Err(ApiError::SignInFailed)));
}

#[test]
fn error_statuses_and_messages() {
    assert_eq!(ApiError::Unauthorized.status(), 401);
    assert_eq!(ApiError::Unauthorized.message(), "Unauthorized");
    assert_eq!(ApiError::InvalidToken.message(), "Invalid token");
    assert_eq!(ApiError::SummaryServiceEmpty.status(), 502);
    assert_eq!(ApiError::HistoryFetchFailed.message(), "Failed to fetch summaries");
    assert_eq!(ApiError::InvalidArticle.message(), "Article must contain 1 to 20,000 characters");
}

#[test]
fn issued_token_authenticates_its_user() {
    let token = token_for(42, SECRET).unwrap();
    let header = format!("Bearer {token}");
    assert_eq!(authenticated_user(Some(header.as_bytes()), SECRET), Ok(42));
}

#[test]
fn issued_token_expires_after_seven_days() {
    let now = 1_750_000_000u64;
    let token = token_for_at(9, SECRET, now).unwrap();
    assert_eq!(token_expiry(&token), Some(now + 7 * 24 * 60 * 60));
    assert_eq!(TOKEN_LIFETIME_SECS, 604800);
}

#[test]
fn expired_token_is_invalid() {
    let token = token_for_at(9, SECRET, 0).unwrap();
    let header = format!("Bearer {token}");
    assert_eq!(authenticated_user(Some(header.as_bytes()), SECRET), Err(ApiError::InvalidToken));
}

#[test]
fn token_with_other_secret_is_invalid() {
    let token = token_for(42, SECRET).unwrap();
    let header = format!("Bearer {token}");
    assert_eq!(
        authenticated_user(Some(header.as_bytes()), "another secret of thirty-two b!!"),
        Err(ApiError::InvalidToken)
    );
}

#[test]
fn far_future_time_cannot_issue() {
    assert_eq!(token_for_at(1, SECRET, u64::MAX - 10), Err(ApiError::TokenCreationFailed));
}

#[test]
fn missing_or_malformed_header_is_unauthorized() {
    assert_eq!(authenticated_user(None, SECRET), Err(ApiError::Unauthorized));
    assert_eq!(authenticated_user(Some(b"Basic abc"), SECRET), Err(ApiError::Unauthorized));
    assert_eq!(authenticated_user(Some(b"bearer abc"), SECRET), Err(ApiError::Unauthorized));
    assert_eq!(authenticated_user(Some(b"Bearer a\x7fb"), SECRET), Err(ApiError::Unauthorized));
    assert_eq!(authenticated_user(Some(b"Bearer"), SECRET), Err(ApiError::Unauthorized));
    assert_eq!(authenticated_user(Some(b"Bearer nonsense"), SECRET), Err(ApiError::InvalidToken));
}

#[test]
fn bearer_token_is_rest_of_header() {
    assert_eq!(bearer_token_of(Some(b"Bearer a.b.c")), Some("a.b.c".to_owned()));
    assert_eq!(bearer_token_of(Some(b"Bearer \tx")), Some("\tx".to_owned()));
    assert_eq!(bearer_token_of(Some(b"Bearer ")), Some(String::new()));
    assert_eq!(bearer_token_of(Some("Bearer é".as_bytes())), None);
}

#[test]
fn claims_must_name_a_positive_user() {
    assert_eq!(user_of_claims(Ok(ClaimFields { user_id: Some(5), exp: Some(1) })), Ok(5));
    assert_eq!(
        user_of_claims(Ok(ClaimFields { user_id: Some(0), exp: Some(1) })),
        Err(ApiError::InvalidToken)
    );
    assert_eq!(
        user_of_claims(Ok(ClaimFields { user_id: Some(-3), exp: Some(1) })),
        Err(ApiError::InvalidToken)
    );
    assert_eq!(
        user_of_claims(Ok(ClaimFields { user_id: Some(1 << 40), exp: Some(1) })),
        Err(ApiError::InvalidToken)
    );
    assert_eq!(
        user_of_claims(Ok(ClaimFields { user_id: Some(5), exp: None })),
        Err(ApiError::InvalidToken)
    );
    assert_eq!(user_of_claims(Err(())), Err(ApiError::InvalidToken));
}

#[test]
fn article_is_trimmed_and_bounded() {
    assert_eq!(check_article("  An article.\n"), Ok("An article.".to_owned()));
    assert_eq!(check_article(" \n\t "), Err(ApiError::InvalidArticle));
    assert_eq!(check_article(""), Err(ApiError::InvalidArticle));
    assert!(check_article(&"é".repeat(20000)).is_ok());
    assert_eq!(check_article(&"a".repeat(20001)), Err(ApiError::InvalidArticle));
    assert!(check_article(&format!("  {}  ", "a".repeat(20000))).is_ok());
}

#[test]
fn summary_needs_a_user_before_the_article() {
    assert!(matches!(begin_summary(None, SECRET, ""), Err(ApiError::Unauthorized)));
    let token = token_for(4, SECRET).unwrap();
    let header = format!("Bearer {token}");
    assert!(matches!(
        begin_summary(Some(header.as_bytes()), SECRET, "  "),
        Err(ApiError::InvalidArticle)
    ));
    let job = begin_summary(Some(header.as_bytes()), SECRET, " text ").ok().unwrap();
    assert_eq!(job.user_id, 4);
    assert_eq!(job.article, "text");
}

#[test]
fn summary_request_messages() {
    let r = summary_request("PROMPT", "ARTICLE");
    assert_eq!(r.model, "gpt-6-luna");
    assert_eq!(r.messages.len(), 3);
    assert_eq!(r.messages[0].role, "developer");
    assert_eq!(r.messages[0].content, "PROMPT");
    assert_eq!(r.messages[1].role, "developer");
    assert!(r.messages[1].content.starts_with("Summarize the article clearly and concisely."));
    assert_eq!(r.messages[2].role, "user");
    assert_eq!(r.messages[2].content, "ARTICLE");
}

fn job() -> SummaryState {
    SummaryState { job: SummaryJob { user_id: 8, article: "text".to_owned() }, summary: None }
}

fn reply_of(a: SummaryAction) -> Result<String, ApiError> {
    match a {
        SummaryAction::Reply(r) => r,
        _ => panic!("expected a reply"),
    }
}

#[test]
fn summary_flow_success() {
    let (s, a) = summary_step(job(), SummaryEvent::Answered(200));
    assert!(matches!(a, SummaryAction::ReadBody));
    let (s, a) = summary_step(s, SummaryEvent::BodyRead(Some(vec![Some(" A summary. ".to_owned())])));
    match a {
        SummaryAction::Save { user_id, article, summary } => {
            assert_eq!(user_id, 8);
            assert_eq!(article, "text");
            assert_eq!(summary, " A summary. ");
        }
        _ => panic!("expected a save"),
    }
    let (_, a) = summary_step(s, SummaryEvent::Saved(true));
    assert_eq!(reply_of(a), Ok(" A summary. ".to_owned()));
}

#[test]
fn summary_flow_failures() {
    assert_eq!(
        reply_of(summary_step(job(), SummaryEvent::Unreachable).1),
        Err(ApiError::SummaryServiceUnavailable)
    );
    assert_eq!(
        reply_of(summary_step(job(), SummaryEvent::Answered(429)).1),
        Err(ApiError::SummaryServiceUnavailable)
    );
    assert_eq!(
        reply_of(summary_step(job(), SummaryEvent::BodyRead(None)).1),
        Err(ApiError::SummaryServiceInvalidResponse)
    );
    assert_eq!(
        reply_of(summary_step(job(), SummaryEvent::BodyRead(Some(vec![]))).1),
        Err(ApiError::SummaryServiceEmpty)
    );
    assert_eq!(
        reply_of(summary_step(job(), SummaryEvent::BodyRead(Some(vec![None]))).1),
        Err(ApiError::SummaryServiceEmpty)
    );
    assert_eq!(
        reply_of(summary_step(job(), SummaryEvent::BodyRead(Some(vec![Some(" \n ".to_owned())]))).1),
        Err(ApiError::SummaryServiceEmpty)
    );
    let (s, _) = summary_step(job(), SummaryEvent::BodyRead(Some(vec![Some("ok".to_owned())])));
    assert_eq!(reply_of(summary_step(s, SummaryEvent::Saved(false)).1), Err(ApiError::SummarySaveFailed));
}

#[test]
fn history_items_keep_rows_and_write_times() {
    let rows = vec![
        HistoryRow {
            id: 2,
            original: "o2".to_owned(),
            summary: "s2".to_owned(),
            created_secs: 1_735_787_045,
            created_nanos: 678_900_000,
        },
        HistoryRow {
            id: 1,
            original: "o1".to_owned(),
            summary: "s1".to_owned(),
            created_secs: 0,
            created_nanos: 5_000_000,
        },
    ];
    let items = history_items(Ok(rows)).ok().unwrap();
    assert_eq!(items.len(), 2);
    assert_eq!(items[0].id, 2);
    assert_eq!(items[0].original, "o2");
    assert_eq!(items[0].summary, "s2");
    assert_eq!(items[0].created_at, "2025-01-02T03:04:05.678Z");
    assert_eq!(items[1].created_at, "1970-01-01T00:00:00.005Z");
    assert!(matches!(history_items(Err(())), Err(ApiError::HistoryFetchFailed)));
}

#[test]
fn history_item_appends_utc_marker() {
    let row = HistoryRow {
        id: 7,
        original: "text".to_owned(),
        summary: "short".to_owned(),
        created_secs: 0,
        created_nanos: 0,
    };
    let item = history_item(&row, Some("2024-05-06T07:08:09.010".to_owned())).unwrap();
    assert_eq!(item.id, 7);
    assert_eq!(item.original, "text");
    assert_eq!(item.summary, "short");
    assert_eq!(item.created_at, "2024-05-06T07:08:09.010Z");
    assert!(history_item(&row, None).is_none());
}

#[test]
fn unwritable_time_fails_history() {
    let rows = vec![HistoryRow {
        id: 1,
        original: "o".to_owned(),
        summary: "s".to_owned(),
        created_secs: i64::MAX,
        created_nanos: 0,
    }];
    assert!(matches!(history_items(Ok(rows)), Err(ApiError::HistoryFetchFailed)));
}

#[test]
fn secret_must_have_32_bytes() {
    assert!(!check_secret(&"s".repeat(31)));
    assert!(check_secret(&"s".repeat(32)));
    assert!(check_secret(&"é".repeat(16)));
}

#[test]
fn server_settings_defaults() {
    assert_eq!(listen_address(None, None), "127.0.0.1:3000");
    assert_eq!(listen_address(Some("0.0.0.0".to_owned()), Some("8080".to_owned())), "0.0.0.0:8080");
    assert_eq!(cors_origin(None), "http://localhost:5173");
    assert_eq!(cors_origin(Some("https://a.b".to_owned())), "https://a.b");
}

#[test]
fn failed_clock_read_issues_no_token() {
    assert_eq!(token_at_clock(5, SECRET, Err(())), Err(ApiError::TokenCreationFailed));
    assert_eq!(token_at_clock(5, SECRET, Ok(1_700_000_000)), token_for_at(5, SECRET, 1_700_000_000));
}

#[test]
fn tokens_of_one_second_are_equal() {
    let a = token_for_at(3, SECRET, 1_700_000_000).unwrap();
    let b = token_for_at(3, SECRET, 1_700_000_000).unwrap();
    let c = token_for_at(4, SECRET, 1_700_000_000).unwrap();
    assert_eq!(a, b);
    assert_ne!(a.split('.').nth(1), c.split('.').nth(1));
}

#[test]
fn new_hashes_use_cost_ten() {
    let hash = hash_password("correct horse").ok().unwrap();
    assert_eq!(hash.len(), 60);
    assert!(hash.starts_with("$2b$10$"));
}

#[test]
fn refused_caller_is_answered_before_the_article() {
    assert!(matches!(summary_job(Err(ApiError::InvalidToken), ""), Err(ApiError::InvalidToken)));
    assert!(matches!(summary_job(Err(ApiError::Unauthorized), "text"), Err(ApiError::Unauthorized)));
    assert!(matches!(summary_job(Ok(8), "   "), Err(ApiError::InvalidArticle)));
    let job = summary_job(Ok(8), "  an article ").ok().unwrap();
    assert_eq!(job.user_id, 8);
    assert_eq!(job.article, "an article");
}

#[test]
fn expired_token_with_bad_article_is_invalid_token() {
    let token = token_for_at(9, SECRET, 0).unwrap();
    let header = format!("Bearer {token}");
    assert!(matches!(begin_summary(Some(header.as_bytes()), SECRET, ""), Err(ApiError::InvalidToken)));
}

#[test]
fn array_claims_are_refused() {
    let claims = serde_json::Value::Array(vec![
        serde_json::Value::from(2_000_000_000i64),
        serde_json::Value::from(1u64),
        serde_json::Value::Null,
        serde_json::Value::Null,
        serde_json::Value::Null,
    ]);
    let token = jsonwebtoken::encode(
        &jsonwebtoken::Header::default(),
        &claims,
        &jsonwebtoken::EncodingKey::from_secret(SECRET.as_bytes()),
    )
    .unwrap();
    let header = format!("Bearer {token}");
    assert_eq!(authenticated_user(Some(header.as_bytes()), SECRET), Err(ApiError::InvalidToken));
}
