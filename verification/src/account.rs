//! Accounts: email normalisation, the signup rule, password hashing with
//! bcrypt, and the decisions of the signup and login handlers.
use crate::display::digit_char;
use crate::errors::ApiError;
use crate::text::{chars_of, contains_char, lowercase, trim, trimmed, unicode_lowercase, lemma_trim_idempotent};
use vstd::prelude::*;

verus! {

/// The bcrypt cost with which new passwords are hashed.
pub const HASH_COST: u32 = 10;

/// Number of bytes of the UTF-8 encoding of one character.
pub open spec fn utf8_width(c: char) -> nat {
    let u = c as u32;
    if u < 0x80 {
        1
    } else if u < 0x800 {
        2
    } else if u < 0x10000 {
        3
    } else {
        4
    }
}

/// Number of bytes of the UTF-8 encoding of `s` (what `str::len` counts).
pub open spec fn byte_len(s: Seq<char>) -> nat
    decreases s.len(),
{
    if s.len() == 0 {
        0
    } else {
        byte_len(s.drop_last()) + utf8_width(s.last())
    }
}

/// The form in which an email is stored and looked up: trimmed, then
/// lower-cased.
pub open spec fn normalized_email(raw: Seq<char>) -> Seq<char> {
    unicode_lowercase(trim(raw))
}

/// The signup rule on the normalised email and the password: at most 254
/// bytes with an `@`, and a password of 8 to 72 bytes.
pub open spec fn signup_allowed(email: Seq<char>, password: Seq<char>) -> bool {
    &&& byte_len(email) <= 254
    &&& email.contains('@')
    &&& 8 <= byte_len(password) <= 72
}

/// A signup request that passed the signup rule.
pub struct NewAccount {
    /// The normalised email.
    pub email: String,
    /// The password as submitted.
    pub password: String,
}

proof fn lemma_byte_len_prefix_mono(s: Seq<char>, i: int, j: int)
    requires
        0 <= i <= j <= s.len(),
    ensures
        byte_len(s.take(i)) <= byte_len(s.take(j)),
    decreases j - i,
{
    if i < j {
        assert(s.take(j).drop_last() == s.take(j - 1));
        lemma_byte_len_prefix_mono(s, i, j - 1);
    }
}

fn utf8_width_of(c: char) -> (w: u64)
    ensures
        w == utf8_width(c),
{
    let u = c as u32;
    if u < 0x80 {
        1
    } else if u < 0x800 {
        2
    } else if u < 0x10000 {
        3
    } else {
        4
    }
}

/// Whether the UTF-8 encoding of `v` is longer than `limit` bytes.
pub fn byte_len_exceeds(v: &Vec<char>, limit: u64) -> (b: bool)
    requires
        limit <= u64::MAX - 4,
    ensures
        b == (byte_len(v@) > limit),
{
    let mut total: u64 = 0;
    let mut i: usize = 0;
    while i < v.len()
        invariant
            i <= v.len(),
            limit <= u64::MAX - 4,
            total == byte_len(v@.take(i as int)),
            total <= limit,
        decreases v.len() - i,
    {
        assert(v@.take(i + 1).drop_last() == v@.take(i as int));
        total = total + utf8_width_of(v[i]);
        i = i + 1;
        if total > limit {
            proof {
                lemma_byte_len_prefix_mono(v@, i as int, v@.len() as int);
                assert(v@.take(v@.len() as int) == v@);
            }
            return true;
        }
    }
    assert(v@.take(v@.len() as int) == v@);
    false
}

/// The email trimmed and lower-cased, as signup stores it and login looks
/// it up.
pub fn normalize_email(raw: &str) -> (r: String)
    ensures
        r@ == normalized_email(raw@),
{
    let t = trimmed(raw);
    lowercase(t.as_str())
}

/// The signup handler's check of its input. Accepts exactly the inputs that
/// meet the signup rule on the normalised email, and then carries the
/// normalised email and the password unchanged.
pub fn check_signup(email: &str, password: &str) -> (r: Result<NewAccount, ApiError>)
    ensures
        match r {
            Ok(account) => {
                &&& signup_allowed(normalized_email(email@), password@)
                &&& account.email@ == normalized_email(email@)
                &&& account.password@ == password@
            },
            Err(e) => !signup_allowed(normalized_email(email@), password@) && e
                == ApiError::InvalidSignup,
        },
{
    let normalized = normalize_email(email);
    let email_chars = chars_of(normalized.as_str());
    let password_chars = chars_of(password);
    if byte_len_exceeds(&email_chars, 254) || !contains_char(&email_chars, '@')
        || !byte_len_exceeds(&password_chars, 7) || byte_len_exceeds(&password_chars, 72) {
        return Err(ApiError::InvalidSignup);
    }
    Ok(NewAccount { email: normalized, password: password.to_owned() })
}

#[verifier::external_type_specification]
#[verifier::external_body]
pub struct ExBcryptError(bcrypt::BcryptError);

/// What `bcrypt::verify(password, hash)` returns: `Some(b)` for `Ok(b)`,
/// `None` for an error (a hash that is not a bcrypt hash).
pub uninterp spec fn bcrypt_verifies(password: Seq<char>, hash: Seq<char>) -> Option<bool>;

/// The first seven characters of a hash that `bcrypt::hash` writes for a
/// cost from 4 to 31: `$2b$`, the cost in two digits, and `$`.
pub open spec fn bcrypt_cost_prefix(cost: u32) -> Seq<char> {
    "$2b$"@ + seq![digit_char((cost / 10) as nat), digit_char((cost % 10) as nat)] + "$"@
}

/// Calls `bcrypt::hash(password, cost)`. The salt is random, so the hash is
/// not a function of the password, and the call can fail (a cost outside 4
/// to 31, or no randomness from the system). What is stated of a hash it
/// returns: the cost was admitted; the hash is written in the `$2b$` form
/// with the cost in two digits, 60 characters long; and `bcrypt::verify`
/// accepts the password against it (it re-hashes the password with the
/// cost and salt stored in the hash and compares).
#[verifier::external_body]
fn bcrypt_hash(password: &str, cost: u32) -> (r: Result<String, bcrypt::BcryptError>)
    ensures
        r matches Ok(h) ==> {
            &&& 4 <= cost <= 31
            &&& h@.len() == 60
            &&& h@.subrange(0, 7) == bcrypt_cost_prefix(cost)
            &&& bcrypt_verifies(password@, h@) == Some(true)
        },
{
    bcrypt::hash(password, cost)
}

/// Calls `bcrypt::verify(password, hash)`; its result is the named function
/// `bcrypt_verifies` of the two strings.
#[verifier::external_body]
fn bcrypt_verify(password: &str, hash: &str) -> (r: Result<bool, bcrypt::BcryptError>)
    ensures
        match r {
            Ok(b) => bcrypt_verifies(password@, hash@) == Some(b),
            Err(_) => bcrypt_verifies(password@, hash@) is None,
        },
{
    bcrypt::verify(password, hash)
}

/// Hashes a new account's password with cost 10. The hash it returns is a
/// 60-character `$2b$10$` bcrypt hash that verifies against the same
/// password.
pub fn hash_password(password: &str) -> (r: Result<String, ApiError>)
    ensures
        r matches Ok(h) ==> {
            &&& h@.len() == 60
            &&& h@.subrange(0, 7) == "$2b$10$"@
            &&& bcrypt_verifies(password@, h@) == Some(true)
        },
        r matches Err(e) ==> e == ApiError::AccountCreationFailed,
{
    match bcrypt_hash(password, HASH_COST) {
        Ok(h) => {
            proof {
                reveal_strlit("$2b$10$");
                reveal_strlit("$2b$");
                reveal_strlit("$");
                assert(bcrypt_cost_prefix(10) =~= "$2b$10$"@);
            }
            Ok(h)
        },
        Err(_) => Err(ApiError::AccountCreationFailed),
    }
}

/// The outcome of the password check at login, from what `bcrypt::verify`
/// returned: only `Ok(true)` signs the user in; a mismatch or a malformed
/// stored hash is reported as invalid credentials.
pub open spec fn password_outcome(check: Option<bool>) -> Result<(), ApiError> {
    match check {
        Some(true) => Ok(()),
        _ => Err(ApiError::InvalidCredentials),
    }
}

/// The login decision on what the password check gave: `Some(b)` for a
/// check that ran, `None` for a stored hash that could not be read.
pub fn login_outcome(check: Option<bool>) -> (r: Result<(), ApiError>)
    ensures
        r == password_outcome(check),
{
    match check {
        Some(true) => Ok(()),
        _ => Err(ApiError::InvalidCredentials),
    }
}

/// Checks a login password against the stored hash.
pub fn verify_password(password: &str, hash: &str) -> (r: Result<(), ApiError>)
    ensures
        r == password_outcome(bcrypt_verifies(password@, hash@)),
{
    let check = match bcrypt_verify(password, hash) {
        Ok(b) => Some(b),
        Err(_) => None,
    };
    login_outcome(check)
}

/// The outcome of a blocking task that hashed a password; `None` when the
/// task did not complete.
pub fn hashed_outcome(joined: Option<Result<String, ApiError>>) -> (r: Result<String, ApiError>)
    ensures
        r == match joined {
            Some(result) => result,
            None => Err(ApiError::AccountCreationFailed),
        },
{
    match joined {
        Some(result) => result,
        None => Err(ApiError::AccountCreationFailed),
    }
}

/// The outcome of a blocking task that checked a password; `None` when the
/// task did not complete.
pub fn verified_outcome(joined: Option<Result<(), ApiError>>) -> (r: Result<(), ApiError>)
    ensures
        r == match joined {
            Some(result) => result,
            None => Err(ApiError::SignInFailed),
        },
{
    match joined {
        Some(result) => result,
        None => Err(ApiError::SignInFailed),
    }
}

/// How the insertion of a new account ended: the new id, or the database
/// error code when the database reported one.
pub enum InsertOutcome {
    Inserted(i32),
    Failed(Option<String>),
}

/// Whether a database error code is a unique-constraint violation.
pub open spec fn is_unique_violation(code: Option<String>) -> bool {
    code matches Some(c) && c@ == "23505"@
}

fn str_equal(a: &str, b: &str) -> (r: bool)
    ensures
        r == (a@ == b@),
{
    let x = chars_of(a);
    let y = chars_of(b);
    if x.len() != y.len() {
        return false;
    }
    let mut i: usize = 0;
    while i < x.len()
        invariant
            i <= x.len() == y.len(),
            x@ == a@,
            y@ == b@,
            forall|k: int| 0 <= k < i ==> x@[k] == y@[k],
        decreases x.len() - i,
    {
        if x[i] != y[i] {
            return false;
        }
        i = i + 1;
    }
    assert(x@ == y@);
    true
}

/// The signup handler's decision on the insertion: the new id, a conflict
/// when the email is taken (unique violation), and a failure otherwise.
pub fn stored_account(outcome: InsertOutcome) -> (r: Result<i32, ApiError>)
    ensures
        r == match outcome {
            InsertOutcome::Inserted(id) => Ok(id),
            InsertOutcome::Failed(code) => if is_unique_violation(code) {
                Err(ApiError::UserExists)
            } else {
                Err(ApiError::AccountCreationFailed)
            },
        },
{
    match outcome {
        InsertOutcome::Inserted(id) => Ok(id),
        InsertOutcome::Failed(code) => {
            match code {
                Some(c) => {
                    if str_equal(c.as_str(), "23505") {
                        Err(ApiError::UserExists)
                    } else {
                        Err(ApiError::AccountCreationFailed)
                    }
                },
                None => Err(ApiError::AccountCreationFailed),
            }
        },
    }
}

/// An account as the login handler reads it.
pub struct StoredUser {
    pub id: i32,
    /// The bcrypt hash of the password.
    pub password_hash: String,
}

/// The login handler's decision on the account lookup: a failed query is a
/// sign-in failure, an unknown email is invalid credentials.
pub fn found_user(lookup: Result<Option<StoredUser>, ()>) -> (r: Result<StoredUser, ApiError>)
    ensures
        match lookup {
            Ok(Some(u)) => r matches Ok(v) && v.id == u.id && v.password_hash@ == u.password_hash@,
            Ok(None) => r == Err::<StoredUser, ApiError>(ApiError::InvalidCredentials),
            Err(_) => r == Err::<StoredUser, ApiError>(ApiError::SignInFailed),
        },
{
    match lookup {
        Ok(Some(u)) => Ok(u),
        Ok(None) => Err(ApiError::InvalidCredentials),
        Err(_) => Err(ApiError::SignInFailed),
    }
}

/// Surrounding whitespace does not change which account an email names:
/// normalising is the same before and after trimming.
pub proof fn lemma_normalized_email_ignores_padding(raw: Seq<char>)
    ensures
        normalized_email(trim(raw)) == normalized_email(raw),
{
    lemma_trim_idempotent(raw);
}

/// A password that signup hashed into `hash` passes the login check
/// against that hash: an account can sign in with the password it was
/// created with.
pub proof fn lemma_created_password_signs_in(password: Seq<char>, hash: Seq<char>)
    requires
        bcrypt_verifies(password, hash) == Some(true),
    ensures
        password_outcome(bcrypt_verifies(password, hash)) == Ok::<(), ApiError>(()),
{
}

} // verus!
