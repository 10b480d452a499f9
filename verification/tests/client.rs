use base64::Engine;
use quickblog::client::{
    auth_finish, auth_labels, auth_path, auth_submit, bearer_value, claims_part, copy_finished,
    copy_text, history_finish, history_request, new_auth_form, new_history_view,
    new_summary_form, restore_session, shows_empty_history, summary_finish, summary_submit,
    token_expiry, Reply,
};
use quickblog::display::{api_url, can_expand, excerpt, push_decimal, read_outcome, time_label};
use quickblog::text::{
    chars_of, collapse_whitespace, contains_char, is_whitespace, push_all, string_of, trimmed,
};

fn token_with_payload(payload_json: &str) -> String {
    let p = base64::engine::general_purpose::URL_SAFE_NO_PAD.encode(payload_json);
    format!("eyJhbGciOiJIUzI1NiJ9.{p}.sig")
}

#[test]
fn whitespace_is_unicode_white_space() {
    for c in [' ', '\t', '\n', '\r', '\u{b}', '\u{c}', '\u{85}', '\u{a0}', '\u{1680}', '\u{2000}', '\u{200a}', '\u{2028}', '\u{2029}', '\u{202f}', '\u{205f}', '\u{3000}'] {
        assert!(is_whitespace(c), "{:?}", c);
        assert_eq!(is_whitespace(c), c.is_whitespace());
    }
    for c in ['a', '\u{200b}', '\u{feff}', '\u{180e}', 'é', '\0'] {
        assert!(!is_whitespace(c));
        assert_eq!(is_whitespace(c), c.is_whitespace());
    }
}

#[test]
fn trimming_matches_str_trim() {
    for s in ["  a b  ", "\u{3000}x\u{a0}", "", "   ", "abc", " \n a\u{2028}"] {
        assert_eq!(trimmed(s), s.trim());
    }
}

#[test]
fn collapsing_matches_split_whitespace() {
    for s in ["  a   b\n\tc  ", "", "   ", "one", "x\u{3000}\u{a0}y"] {
        let got: String = collapse_whitespace(&chars_of(s)).into_iter().collect();
        assert_eq!(got, s.split_whitespace().collect::<Vec<_>>().join(" "));
    }
}

#[test]
fn string_building() {
    let mut s = string_of(&vec!['a', 'é']);
    push_all(&mut s, "xyz");
    assert_eq!(s, "aéxyz");
    assert!(contains_char(&chars_of("a@b"), '@'));
    assert!(!contains_char(&chars_of("ab"), '@'));
}

#[test]
fn api_url_drops_trailing_slashes() {
    assert_eq!(api_url("https://api.test//", "/api/summarize"), "https://api.test/api/summarize");
    assert_eq!(api_url("https://api.test", "/api/auth/login"), "https://api.test/api/auth/login");
    assert_eq!(api_url("", "/api/summarize"), "/api/summarize");
}

#[test]
fn decimal_writing() {
    let mut s = String::new();
    push_decimal(&mut s, 0);
    assert_eq!(s, "0");
    let mut s = "n=".to_owned();
    push_decimal(&mut s, 18446744073709551615);
    assert_eq!(s, "n=18446744073709551615");
}

#[test]
fn read_outcome_messages() {
    assert_eq!(read_outcome(200, Some(5), None), Ok(5));
    assert_eq!(
        read_outcome::<i32>(201, None, None),
        Err("The server returned an invalid response".to_owned())
    );
    assert_eq!(
        read_outcome::<i32>(409, None, Some("User already exists".to_owned())),
        Err("User already exists".to_owned())
    );
    assert_eq!(read_outcome::<i32>(503, None, None), Err("Request failed (503)".to_owned()));
}

#[test]
fn excerpt_fits_whole() {
    assert_eq!(excerpt("  short\n text  ", 150), "short text");
}

#[test]
fn excerpt_cuts_at_a_space() {
    assert_eq!(excerpt("alpha beta gamma", 12), "alpha beta…");
    assert_eq!(excerpt("alpha beta gamma", 11), "alpha beta…");
    assert_eq!(excerpt("alpha beta gamma", 10), "alpha…");
    assert_eq!(excerpt("abcdefghij", 4), "abcd…");
    let long = "word ".repeat(100);
    let e = excerpt(&long, 220);
    assert!(e.ends_with('…'));
    assert!(e.chars().count() <= 221);
}

#[test]
fn card_expands_long_summaries() {
    assert!(!can_expand(&"a".repeat(220)));
    assert!(can_expand(&"a".repeat(221)));
    assert!(!can_expand(&format!("  {}  ", "a".repeat(220))));
}

#[test]
fn card_time_label() {
    assert_eq!(time_label("2025-01-02T03:04:05.678Z"), "2025-01-02 03:04:05.678 UTC");
    assert_eq!(time_label("2025-01-02"), "2025-01-02 UTC");
}

#[test]
fn token_expiry_reads_exp() {
    assert_eq!(token_expiry(&token_with_payload("{\"userId\":1,\"exp\":1700000000}")), Some(1700000000));
    assert_eq!(token_expiry(&token_with_payload("{\"exp\":-1}")), None);
    assert_eq!(token_expiry(&token_with_payload("{\"exp\":1.5}")), None);
    assert_eq!(token_expiry(&token_with_payload("[1]")), None);
    assert_eq!(token_expiry(&token_with_payload("{\"userId\":1}")), None);
    assert_eq!(token_expiry("no-dots"), None);
    assert_eq!(token_expiry("a.!!!.c"), None);
    assert_eq!(claims_part("a.b.c"), Some("b".to_owned()));
    assert_eq!(claims_part("a.b"), Some("b".to_owned()));
    assert_eq!(claims_part("a."), Some(String::new()));
    assert_eq!(claims_part("abc"), None);
}

#[test]
fn stale_tokens_are_removed() {
    let s = restore_session(Some("t".to_owned()), true);
    assert_eq!(s.token, Some("t".to_owned()));
    assert!(!s.remove);
    let s = restore_session(Some("t".to_owned()), false);
    assert_eq!(s.token, None);
    assert!(s.remove);
    let s = restore_session(None, false);
    assert_eq!(s.token, None);
    assert!(!s.remove);
}

#[test]
fn auth_form_submits_once() {
    let mut f = new_auth_form();
    f.email = "a@b".to_owned();
    f.password = "secret12".to_owned();
    f.error = Some("old".to_owned());
    let c = auth_submit(&mut f).unwrap();
    assert_eq!(c.email, "a@b");
    assert_eq!(c.password, "secret12");
    assert!(f.loading);
    assert_eq!(f.error, None);
    assert!(auth_submit(&mut f).is_none());
    assert!(f.loading);
}

#[test]
fn auth_form_results() {
    let mut f = new_auth_form();
    auth_submit(&mut f);
    let signed_in = auth_finish(&mut f, Reply::Answered { status: 200, result: Ok("tok".to_owned()) }, true);
    assert_eq!(signed_in, Some("tok".to_owned()));
    assert!(!f.loading);

    let mut f = new_auth_form();
    auth_submit(&mut f);
    let r = auth_finish(&mut f, Reply::Answered { status: 200, result: Ok("tok".to_owned()) }, false);
    assert_eq!(r, None);
    assert_eq!(f.error.as_deref(), Some("The server returned an invalid token"));

    let mut f = new_auth_form();
    auth_submit(&mut f);
    auth_finish(&mut f, Reply::Answered { status: 401, result: Err("Invalid credentials".to_owned()) }, false);
    assert_eq!(f.error.as_deref(), Some("Invalid credentials"));

    let mut f = new_auth_form();
    auth_submit(&mut f);
    auth_finish(&mut f, Reply::Unreachable, false);
    assert_eq!(f.error.as_deref(), Some("Could not reach the API"));
    assert!(!f.loading);
    auth_finish(&mut f, Reply::Unprepared, false);
    assert_eq!(f.error.as_deref(), Some("Could not prepare the request"));
}

#[test]
fn auth_page_texts() {
    assert_eq!(auth_path(true), "/api/auth/signup");
    assert_eq!(auth_path(false), "/api/auth/login");
    let l = auth_labels(true);
    assert_eq!(l.heading, "Sign up an account");
    assert_eq!(l.alternate_action, "Login");
    assert!(!l.alternate_is_signup);
    let l = auth_labels(false);
    assert_eq!(l.heading, "Login to your account");
    assert_eq!(l.alternate, "Don't have an account?");
    assert!(l.alternate_is_signup);
}

#[test]
fn summary_form_needs_session_and_idle() {
    let mut f = new_summary_form();
    f.article = "text".to_owned();
    assert!(summary_submit(&mut f, &None).is_none());
    assert!(!f.loading);
    f.summary = Some("old".to_owned());
    f.copied = true;
    let call = summary_submit(&mut f, &Some("tok".to_owned())).unwrap();
    assert_eq!(call.authorization, "Bearer tok");
    assert_eq!(call.article, "text");
    assert!(f.loading);
    assert_eq!(f.summary, None);
    assert!(!f.copied);
    assert!(summary_submit(&mut f, &Some("tok".to_owned())).is_none());
}

#[test]
fn summary_form_results() {
    let mut f = new_summary_form();
    summary_submit(&mut f, &Some("tok".to_owned()));
    let out = summary_finish(&mut f, Reply::Answered { status: 200, result: Ok("sum".to_owned()) });
    assert!(!out);
    assert_eq!(f.summary.as_deref(), Some("sum"));
    assert!(!f.loading);
    assert_eq!(copy_text(&f), Some("sum".to_owned()));
    copy_finished(&mut f, false);
    assert!(!f.copied);
    copy_finished(&mut f, true);
    assert!(f.copied);

    let mut f = new_summary_form();
    summary_submit(&mut f, &Some("tok".to_owned()));
    let out = summary_finish(&mut f, Reply::Answered { status: 401, result: Err("Invalid token".to_owned()) });
    assert!(out);
    assert_eq!(f.error.as_deref(), Some("Invalid token"));
}

#[test]
fn history_view_states() {
    let mut v = new_history_view::<u32>();
    assert!(v.loading);
    assert!(!shows_empty_history(&v));
    assert_eq!(history_request(&None), None);
    assert_eq!(history_request(&Some("t".to_owned())), Some("Bearer t".to_owned()));
    let out = history_finish(&mut v, Reply::Answered { status: 200, result: Ok(vec![]) });
    assert!(!out);
    assert!(shows_empty_history(&v));
    let out = history_finish(&mut v, Reply::Answered { status: 200, result: Ok(vec![1, 2]) });
    assert!(!out);
    assert_eq!(v.items, vec![1, 2]);
    assert!(!shows_empty_history(&v));

    let mut v = new_history_view::<u32>();
    let out = history_finish(&mut v, Reply::Answered { status: 401, result: Err("Unauthorized".to_owned()) });
    assert!(out);
    assert_eq!(v.error.as_deref(), Some("Unauthorized"));
    assert!(!shows_empty_history(&v));
}

#[test]
fn bearer_value_prefix() {
    assert_eq!(bearer_value("abc"), "Bearer abc");
}
