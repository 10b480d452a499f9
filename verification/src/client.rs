//! The decisions of the browser client: reading a token's expiry, the
//! stored session, and the forms of the login, signup, summary and history
//! pages between their requests.
use crate::text::{chars_of, push_all, string_of_range};
use crate::token::{bearer_token, is_token_char};
use vstd::prelude::*;

verus! {

/// `s` up to its first `.` (all of `s` when it has none).
pub open spec fn before_dot(s: Seq<char>) -> Seq<char>
    decreases s.len(),
{
    if s.len() == 0 || s[0] == '.' {
        seq![]
    } else {
        seq![s[0]] + before_dot(s.drop_first())
    }
}

/// What follows the first `.` of `s`, when it has one.
pub open spec fn after_dot(s: Seq<char>) -> Option<Seq<char>>
    decreases s.len(),
{
    if s.len() == 0 {
        None
    } else if s[0] == '.' {
        Some(s.drop_first())
    } else {
        after_dot(s.drop_first())
    }
}

/// The second `.`-separated part of a token (`split('.').nth(1)`), which
/// holds its claims.
pub open spec fn claims_segment(token: Seq<char>) -> Option<Seq<char>> {
    match after_dot(token) {
        Some(rest) => Some(before_dot(rest)),
        None => None,
    }
}

proof fn lemma_dot_index(s: Seq<char>, i: int)
    requires
        0 <= i <= s.len(),
        forall|k: int| 0 <= k < i ==> #[trigger] s[k] != '.',
        i == s.len() || s[i] == '.',
    ensures
        before_dot(s) == s.take(i),
        after_dot(s) == if i < s.len() {
            Some(s.skip(i + 1))
        } else {
            None::<Seq<char>>
        },
    decreases i,
{
    if i > 0 {
        let t = s.drop_first();
        assert forall|k: int| 0 <= k < i - 1 implies #[trigger] t[k] != '.' by {
            assert(t[k] == s[k + 1]);
        }
        if i < s.len() {
            assert(t[i - 1] == s[i]);
            assert(t.skip(i) == s.skip(i + 1));
        }
        lemma_dot_index(t, i - 1);
        assert(seq![s[0]] + t.take(i - 1) == s.take(i));
    } else {
        assert(s.take(0) == Seq::<char>::empty());
        if s.len() > 0 {
            assert(s.drop_first() == s.skip(1));
        }
    }
}

fn first_dot_from(v: &Vec<char>, start: usize) -> (r: usize)
    requires
        start <= v.len(),
    ensures
        start <= r <= v.len(),
        forall|k: int| start <= k < r ==> #[trigger] v@[k] != '.',
        r == v.len() || v@[r as int] == '.',
{
    let mut i = start;
    while i < v.len() && v[i] != '.'
        invariant
            start <= i <= v.len(),
            forall|k: int| start <= k < i ==> #[trigger] v@[k] != '.',
        decreases v.len() - i,
    {
        i = i + 1;
    }
    i
}

/// The claims part of a token.
pub fn claims_part(token: &str) -> (r: Option<String>)
    ensures
        match r {
            Some(p) => claims_segment(token@) == Some(p@),
            None => claims_segment(token@) is None,
        },
{
    let v = chars_of(token);
    let i = first_dot_from(&v, 0);
    proof {
        lemma_dot_index(v@, i as int);
    }
    if i == v.len() {
        return None;
    }
    let j = first_dot_from(&v, i + 1);
    proof {
        let rest = v@.skip(i + 1);
        assert forall|k: int| 0 <= k < j - (i + 1) implies #[trigger] rest[k] != '.' by {
            assert(rest[k] == v@[k + i + 1]);
        }
        if j < v.len() {
            assert(rest[j - (i + 1)] == v@[j as int]);
        }
        lemma_dot_index(rest, j - (i + 1));
        assert(rest.take(j - (i + 1)) == v@.subrange(i + 1, j as int));
    }
    Some(string_of_range(&v, i + 1, j))
}

/// What `URL_SAFE_NO_PAD.decode` of the base64 crate gives for some bytes:
/// the decoded bytes, or `None` when they are not unpadded base64url.
pub uninterp spec fn base64url_decoded(input: Seq<u8>) -> Option<Seq<u8>>;

#[verifier::external_type_specification]
#[verifier::external_body]
pub struct ExDecodeError(base64::DecodeError);

/// Calls `base64::Engine::decode` on the `URL_SAFE_NO_PAD` engine; the
/// result is the named function `base64url_decoded` of the input.
#[verifier::external_body]
fn base64url_decode(input: &[u8]) -> (r: Result<Vec<u8>, base64::DecodeError>)
    ensures
        match r {
            Ok(b) => base64url_decoded(input@) == Some(b@),
            Err(_) => base64url_decoded(input@) is None,
        },
{
    base64::Engine::decode(&base64::engine::general_purpose::URL_SAFE_NO_PAD, input)
}

/// What serde_json gives for a member of a JSON document read as an
/// unsigned 64-bit integer: `from_slice::<Value>`, then `Value::get(key)`,
/// then `Value::as_u64`; `None` when the bytes are not JSON, the document
/// is not an object with that member, or the member is not such an integer.
pub uninterp spec fn json_u64_member(json: Seq<u8>, key: Seq<char>) -> Option<u64>;

/// Calls `serde_json::from_slice::<serde_json::Value>`, then `get(key)` and
/// `as_u64` on the value; the result is the named function
/// `json_u64_member` of the bytes and the key.
#[verifier::external_body]
fn json_member_as_u64(json: &[u8], key: &str) -> (r: Option<u64>)
    ensures
        r == json_u64_member(json@, key@),
{
    match serde_json::from_slice::<serde_json::Value>(json) {
        Ok(v) => v.get(key).and_then(serde_json::Value::as_u64),
        Err(_) => None,
    }
}

/// The expiry that the client reads from a token: the `exp` member of the
/// JSON document in its base64url-encoded claims part.
pub open spec fn token_expiry_of(token: Seq<char>) -> Option<u64> {
    match claims_segment(token) {
        None => None,
        Some(p) => match base64url_decoded(vstd::utf8::encode_utf8(p)) {
            None => None,
            Some(json) => json_u64_member(json, "exp"@),
        },
    }
}

/// The expiry of a token, when it has one that the client can read.
pub fn token_expiry(token: &str) -> (r: Option<u64>)
    ensures
        r == token_expiry_of(token@),
{
    let part = match claims_part(token) {
        Some(p) => p,
        None => return None,
    };
    let json = match base64url_decode(part.as_str().as_bytes()) {
        Ok(b) => b,
        Err(_) => return None,
    };
    json_member_as_u64(json.as_slice(), "exp")
}

/// The value of the `Authorization` header that carries a token.
pub fn bearer_value(token: &str) -> (r: String)
    ensures
        r@ == "Bearer "@ + token@,
{
    let mut r = "Bearer ".to_owned();
    push_all(&mut r, token);
    r
}

/// Characters read as the bytes with the same codes.
pub open spec fn ascii_bytes(s: Seq<char>) -> Seq<u8> {
    s.map_values(|c: char| c as u8)
}

/// The header that the client builds for a token made of base64url text
/// and dots is read back by the server as the same token.
pub proof fn lemma_client_header_carries_token(token: Seq<char>)
    requires
        forall|i: int| 0 <= i < token.len() ==> is_token_char(#[trigger] token[i]),
    ensures
        bearer_token(Some(ascii_bytes("Bearer "@ + token))) == Some(token),
{
    reveal_strlit("Bearer ");
    assert(ascii_bytes("Bearer "@ + token) == crate::token::bearer_header(token));
    crate::token::lemma_bearer_header_round_trip(token);
}

/// The session at start-up from the stored token and whether it is still
/// current: a current token is kept; a stale one is removed.
pub struct StoredSession {
    pub token: Option<String>,
    /// Whether to remove the stored token.
    pub remove: bool,
}

/// The session at start-up.
pub fn restore_session(stored: Option<String>, current: bool) -> (r: StoredSession)
    ensures
        match stored {
            Some(t) => if current {
                r.token == Some(t) && !r.remove
            } else {
                r.token is None && r.remove
            },
            None => r.token is None && !r.remove,
        },
{
    match stored {
        Some(t) => if current {
            StoredSession { token: Some(t), remove: false }
        } else {
            StoredSession { token: None, remove: true }
        },
        None => StoredSession { token: None, remove: false },
    }
}

/// The login or signup form.
pub struct AuthForm {
    pub email: String,
    pub password: String,
    pub error: Option<String>,
    pub loading: bool,
}

/// The body of a login or signup request.
pub struct Credentials {
    pub email: String,
    pub password: String,
}

/// An empty form, not loading.
pub fn new_auth_form() -> (f: AuthForm)
    ensures
        f.email@.len() == 0,
        f.password@.len() == 0,
        f.error is None,
        !f.loading,
{
    AuthForm { email: String::new(), password: String::new(), error: None, loading: false }
}

/// The API route of the form: signup or login.
pub fn auth_path(signup: bool) -> (r: &'static str)
    ensures
        r@ == if signup {
            "/api/auth/signup"@
        } else {
            "/api/auth/login"@
        },
{
    if signup {
        "/api/auth/signup"
    } else {
        "/api/auth/login"
    }
}

/// Submitting the form: ignored while a request is running; otherwise the
/// form starts loading, clears its error, and sends the email and password
/// as typed.
pub fn auth_submit(form: &mut AuthForm) -> (r: Option<Credentials>)
    ensures
        old(form).loading ==> r is None && final(form).loading && final(form).error == old(form).error && final(form).email@ == old(form).email@ && final(form).password@ == old(form).password@,
        !old(form).loading ==> {
            &&& final(form).loading
            &&& final(form).error is None
            &&& final(form).email@ == old(form).email@
            &&& final(form).password@ == old(form).password@
            &&& r matches Some(c)
            &&& c.email@ == old(form).email@
            &&& c.password@ == old(form).password@
        },
{
    if form.loading {
        return None;
    }
    form.loading = true;
    form.error = None;
    Some(Credentials { email: form.email.clone(), password: form.password.clone() })
}

/// How a request of the client ended.
pub enum Reply<T> {
    /// The request body could not be built.
    Unprepared,
    /// The API could not be reached.
    Unreachable,
    /// The API answered with this status, read into a value or a message.
    Answered { status: u16, result: Result<T, String> },
}

/// The message shown when a request body cannot be built.
pub open spec fn unprepared_message() -> Seq<char> {
    "Could not prepare the request"@
}

/// The message shown when the API cannot be reached.
pub open spec fn unreachable_message() -> Seq<char> {
    "Could not reach the API"@
}

/// The message shown for a token that is not current.
pub open spec fn invalid_token_message() -> Seq<char> {
    "The server returned an invalid token"@
}

/// The end of a login or signup request. A token that is current signs the
/// user in (the caller stores it and goes to the home page); a token that
/// is not current, or a failure, sets the error. The form stops loading.
pub fn auth_finish(form: &mut AuthForm, reply: Reply<String>, token_current: bool) -> (r: Option<
    String,
>)
    ensures
        !final(form).loading,
        final(form).email@ == old(form).email@,
        final(form).password@ == old(form).password@,
        match reply {
            Reply::Answered { status: _, result: Ok(t) } => if token_current {
                r == Some(t) && final(form).error == old(form).error
            } else {
                r is None && (final(form).error matches Some(m) && m@ == invalid_token_message())
            },
            Reply::Answered { status: _, result: Err(m) } => r is None && final(form).error == Some(
                m,
            ),
            Reply::Unprepared => r is None && (final(form).error matches Some(m) && m@
                == unprepared_message()),
            Reply::Unreachable => r is None && (final(form).error matches Some(m) && m@
                == unreachable_message()),
        },
{
    let r = match reply {
        Reply::Answered { status: _, result: Ok(t) } => {
            if token_current {
                Some(t)
            } else {
                form.error = Some("The server returned an invalid token".to_owned());
                None
            }
        },
        Reply::Answered { status: _, result: Err(m) } => {
            form.error = Some(m);
            None
        },
        Reply::Unprepared => {
            form.error = Some("Could not prepare the request".to_owned());
            None
        },
        Reply::Unreachable => {
            form.error = Some("Could not reach the API".to_owned());
            None
        },
    };
    form.loading = false;
    r
}

/// The summary form of the home page.
pub struct SummaryForm {
    pub article: String,
    pub summary: Option<String>,
    pub error: Option<String>,
    pub loading: bool,
    pub copied: bool,
}

/// A summarize request: the `Authorization` header and the article.
pub struct SummarizeCall {
    pub authorization: String,
    pub article: String,
}

/// An empty summary form.
pub fn new_summary_form() -> (f: SummaryForm)
    ensures
        f.article@.len() == 0,
        f.summary is None,
        f.error is None,
        !f.loading,
        !f.copied,
{
    SummaryForm {
        article: String::new(),
        summary: None,
        error: None,
        loading: false,
        copied: false,
    }
}

/// Submitting the summary form: ignored while a request is running or
/// without a session; otherwise the error, the summary and the copied mark
/// are cleared, the form starts loading, and the article goes out with the
/// session's token as a bearer token.
pub fn summary_submit(form: &mut SummaryForm, session: &Option<String>) -> (r: Option<
    SummarizeCall,
>)
    ensures
        (old(form).loading || session is None) ==> r is None && final(form).loading == old(form).loading && final(form).summary == old(form).summary && final(form).error == old(form).error && final(form).copied == old(form).copied && final(form).article@ == old(form).article@,
        (!old(form).loading && session is Some) ==> {
            &&& final(form).loading
            &&& final(form).error is None
            &&& final(form).summary is None
            &&& !final(form).copied
            &&& final(form).article@ == old(form).article@
            &&& r matches Some(call)
            &&& call.article@ == old(form).article@
            &&& call.authorization@ == "Bearer "@ + session->0@
        },
{
    if form.loading {
        return None;
    }
    let token = match session {
        Some(t) => t,
        None => return None,
    };
    form.error = None;
    form.summary = None;
    form.copied = false;
    form.loading = true;
    Some(SummarizeCall { authorization: bearer_value(token.as_str()), article: form.article.clone() })
}

/// The end of a summarize request. A 401 answer also ends the session (the
/// caller forgets the token); a summary is shown, a failure sets the error;
/// the form stops loading. The result says whether to end the session.
pub fn summary_finish(form: &mut SummaryForm, reply: Reply<String>) -> (sign_out: bool)
    ensures
        !final(form).loading,
        final(form).article@ == old(form).article@,
        final(form).copied == old(form).copied,
        match reply {
            Reply::Answered { status, result: Ok(s) } => sign_out == (status == 401)
                && final(form).summary == Some(s) && final(form).error == old(form).error,
            Reply::Answered { status, result: Err(m) } => sign_out == (status == 401)
                && final(form).error == Some(m) && final(form).summary == old(form).summary,
            Reply::Unprepared => !sign_out && final(form).summary == old(form).summary && (final(form).error matches Some(m) && m@ == unprepared_message()),
            Reply::Unreachable => !sign_out && final(form).summary == old(form).summary && (final(form).error matches Some(m) && m@ == unreachable_message()),
        },
{
    let sign_out = match reply {
        Reply::Answered { status, result: Ok(s) } => {
            form.summary = Some(s);
            status == 401
        },
        Reply::Answered { status, result: Err(m) } => {
            form.error = Some(m);
            status == 401
        },
        Reply::Unprepared => {
            form.error = Some("Could not prepare the request".to_owned());
            false
        },
        Reply::Unreachable => {
            form.error = Some("Could not reach the API".to_owned());
            false
        },
    };
    form.loading = false;
    sign_out
}

/// The text to copy: the shown summary, if any.
pub fn copy_text(form: &SummaryForm) -> (r: Option<String>)
    ensures
        r == form.summary,
{
    form.summary.clone()
}

/// The end of a copy to the clipboard: a success marks the summary copied.
pub fn copy_finished(form: &mut SummaryForm, ok: bool)
    ensures
        final(form).copied == (old(form).copied || ok),
        final(form).summary == old(form).summary,
        final(form).error == old(form).error,
        final(form).loading == old(form).loading,
        final(form).article@ == old(form).article@,
{
    if ok {
        form.copied = true;
    }
}

/// The history page: the items read so far, the error, and whether the
/// request is running.
pub struct HistoryView<T> {
    pub items: Vec<T>,
    pub error: Option<String>,
    pub loading: bool,
}

/// The history page before its request ends: loading, nothing shown.
pub fn new_history_view<T>() -> (v: HistoryView<T>)
    ensures
        v.items@.len() == 0,
        v.error is None,
        v.loading,
{
    HistoryView { items: Vec::new(), error: None, loading: true }
}

/// The `Authorization` header of the history request, when there is a
/// session to send.
pub fn history_request(session: &Option<String>) -> (r: Option<String>)
    ensures
        match session {
            Some(t) => r matches Some(h) && h@ == "Bearer "@ + t@,
            None => r is None,
        },
{
    match session {
        Some(t) => Some(bearer_value(t.as_str())),
        None => None,
    }
}

/// The end of the history request: a 401 answer also ends the session; the
/// items are shown or the failure sets the error; loading stops.
pub fn history_finish<T>(view: &mut HistoryView<T>, reply: Reply<Vec<T>>) -> (sign_out: bool)
    ensures
        !final(view).loading,
        match reply {
            Reply::Answered { status, result: Ok(items) } => sign_out == (status == 401)
                && final(view).items == items && final(view).error == old(view).error,
            Reply::Answered { status, result: Err(m) } => sign_out == (status == 401)
                && final(view).error == Some(m) && final(view).items == old(view).items,
            Reply::Unprepared => !sign_out && final(view).items == old(view).items && (final(view).error matches Some(m) && m@ == unprepared_message()),
            Reply::Unreachable => !sign_out && final(view).items == old(view).items && (final(view).error matches Some(m) && m@ == unreachable_message()),
        },
{
    let sign_out = match reply {
        Reply::Answered { status, result: Ok(items) } => {
            view.items = items;
            status == 401
        },
        Reply::Answered { status, result: Err(m) } => {
            view.error = Some(m);
            status == 401
        },
        Reply::Unprepared => {
            view.error = Some("Could not prepare the request".to_owned());
            false
        },
        Reply::Unreachable => {
            view.error = Some("Could not reach the API".to_owned());
            false
        },
    };
    view.loading = false;
    sign_out
}

/// Whether the history page shows its "nothing here yet" message: the
/// request has ended without an error and without items.
pub fn shows_empty_history<T>(view: &HistoryView<T>) -> (b: bool)
    ensures
        b == (!view.loading && view.error is None && view.items@.len() == 0),
{
    !view.loading && view.error.is_none() && view.items.len() == 0
}

/// The texts of the login and signup page.
pub struct AuthLabels {
    pub heading: &'static str,
    pub action: &'static str,
    pub alternate: &'static str,
    pub alternate_action: &'static str,
    /// Whether the alternate link leads to the signup page (else to login).
    pub alternate_is_signup: bool,
    pub password_autocomplete: &'static str,
}

/// The texts of the signup page (`signup`) or of the login page.
pub fn auth_labels(signup: bool) -> (r: AuthLabels)
    ensures
        r.alternate_is_signup == !signup,
        signup ==> r.heading@ == "Sign up an account"@ && r.action@ == "Sign up"@
            && r.alternate@ == "Have an account?"@ && r.alternate_action@ == "Login"@
            && r.password_autocomplete@ == "new-password"@,
        !signup ==> r.heading@ == "Login to your account"@ && r.action@ == "Login"@
            && r.alternate@ == "Don't have an account?"@ && r.alternate_action@ == "Sign up"@
            && r.password_autocomplete@ == "current-password"@,
{
    if signup {
        AuthLabels {
            heading: "Sign up an account",
            action: "Sign up",
            alternate: "Have an account?",
            alternate_action: "Login",
            alternate_is_signup: false,
            password_autocomplete: "new-password",
        }
    } else {
        AuthLabels {
            heading: "Login to your account",
            action: "Login",
            alternate: "Don't have an account?",
            alternate_action: "Sign up",
            alternate_is_signup: true,
            password_autocomplete: "current-password",
        }
    }
}

} // verus!
