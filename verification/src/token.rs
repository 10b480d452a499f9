//! Bearer tokens: HS256 JSON Web Tokens that carry a user id and an
//! expiry, issued for seven days and read back from the `Authorization`
//! header of the summary routes.
use crate::client::token_expiry_of;
use crate::errors::ApiError;
use vstd::string::StringSliceAdditionalSpecFns;
use vstd::prelude::*;

verus! {

/// Seconds for which a new token stays valid: seven days.
pub const TOKEN_LIFETIME_SECS: u64 = 604800;

/// The claims of a token as the server reads them back: the `userId`
/// member as a 64-bit integer and the `exp` member as an unsigned 64-bit
/// integer, each `None` when the member is missing or has another form.
#[derive(PartialEq, Eq, Structural, Clone, Copy, Debug)]
pub struct ClaimFields {
    pub user_id: Option<i64>,
    pub exp: Option<u64>,
}

/// The token that `jsonwebtoken::encode` builds with the default (HS256)
/// header, the claims `{"userId": user_id, "exp": exp}` and the secret.
pub uninterp spec fn hs256_token(user_id: i32, exp: u64, secret: Seq<u8>) -> Seq<char>;

/// The claims part of a token as `jsonwebtoken::decode` reads it, taken to
/// the two members that the server uses.
pub uninterp spec fn token_claims(token: Seq<char>) -> ClaimFields;

/// Whether the third part of `token` is the HS256 signature (HMAC-SHA256
/// keyed with `secret`) of its first two parts, under a header that names
/// HS256: what `jsonwebtoken::decode` checks before it reads any claim.
pub uninterp spec fn hs256_signature_valid(token: Seq<char>, secret: Seq<u8>) -> bool;

/// The characters of a base64url encoding without padding, and the dot that
/// separates the three parts of a token.
pub open spec fn is_token_char(c: char) -> bool {
    ||| 'A' <= c <= 'Z'
    ||| 'a' <= c <= 'z'
    ||| '0' <= c <= '9'
    ||| c == '-'
    ||| c == '_'
    ||| c == '.'
}

#[verifier::external_type_specification]
#[verifier::external_body]
pub struct ExJwtError(jsonwebtoken::errors::Error);

/// Calls `jsonwebtoken::encode` with the default header (HS256), the claims
/// object `{"userId": user_id, "exp": exp}` (members in that order) and an
/// HMAC key made from `secret`. It always succeeds: the key family matches
/// HS256, serialising the header and the map cannot fail, and HMAC signing
/// has no error. The token is the named function `hs256_token` of the three
/// arguments; it carries a valid HS256 signature under `secret`; its claims
/// part reads back as the same two members; it is made of base64url text
/// and dots; and its second part is the unpadded base64url encoding of the
/// claims JSON, so the `exp` member read from it is `exp`.
#[verifier::external_body]
fn jwt_encode_hs256(user_id: i32, exp: u64, secret: &[u8]) -> (r: Result<
    String,
    jsonwebtoken::errors::Error,
>)
    ensures
        r is Ok,
        r matches Ok(t) ==> {
            &&& t@ == hs256_token(user_id, exp, secret@)
            &&& hs256_signature_valid(t@, secret@)
            &&& token_claims(t@) == (ClaimFields { user_id: Some(user_id as i64), exp: Some(exp) })
            &&& forall|i: int| 0 <= i < t@.len() ==> is_token_char(#[trigger] t@[i])
            &&& token_expiry_of(t@) == Some(exp)
        },
{
    let mut claims = serde_json::Map::new();
    claims.insert("userId".to_owned(), serde_json::Value::from(user_id));
    claims.insert("exp".to_owned(), serde_json::Value::from(exp));
    jsonwebtoken::encode(
        &jsonwebtoken::Header::default(),
        &claims,
        &jsonwebtoken::EncodingKey::from_secret(secret),
    )
}

/// Calls `jsonwebtoken::decode` with an HMAC key made from `secret` and the
/// validation of HS256 (signature, and an `exp` claim that has not passed,
/// with the library's leeway), reading the claims as a JSON value and
/// taking its `userId` member with `as_i64` and its `exp` member with
/// `as_u64`. Whether the token is accepted also depends on the clock, so
/// acceptance is not promised; what is stated is that an accepted token has
/// a valid HS256 signature under `secret` and that its claims are those of
/// the token's claims part.
#[verifier::external_body]
fn jwt_decode_hs256(token: &str, secret: &[u8]) -> (r: Result<
    ClaimFields,
    jsonwebtoken::errors::Error,
>)
    ensures
        r matches Ok(c) ==> c == token_claims(token@) && hs256_signature_valid(token@, secret@),
{
    match jsonwebtoken::decode::<serde_json::Value>(
        token,
        &jsonwebtoken::DecodingKey::from_secret(secret),
        &jsonwebtoken::Validation::new(jsonwebtoken::Algorithm::HS256),
    ) {
        Ok(data) => Ok(
            ClaimFields {
                user_id: data.claims.get("userId").and_then(serde_json::Value::as_i64),
                exp: data.claims.get("exp").and_then(serde_json::Value::as_u64),
            },
        ),
        Err(e) => Err(e),
    }
}

/// Reads the system clock as whole seconds since the Unix epoch
/// (`SystemTime::now().duration_since(UNIX_EPOCH)`, then `as_secs`). The
/// value depends on the clock, so nothing is stated of it; the error is a
/// clock set before the epoch.
#[verifier::external_body]
fn unix_time_secs() -> (r: Result<u64, std::time::SystemTimeError>) {
    match std::time::SystemTime::now().duration_since(std::time::UNIX_EPOCH) {
        Ok(d) => Ok(d.as_secs()),
        Err(e) => Err(e),
    }
}

#[verifier::external_type_specification]
#[verifier::external_body]
pub struct ExSystemTimeError(std::time::SystemTimeError);

/// What holds of the token issued at time `now` (seconds since the epoch)
/// for `user_id` under `secret`: it is the HS256 token of the user and an
/// expiry seven days later, signed with the secret, made of base64url text
/// and dots, and both the server and the client read that user and expiry
/// back from it.
pub open spec fn issued_token(user_id: i32, secret: Seq<u8>, now: u64, t: Seq<char>) -> bool {
    let exp = (now + TOKEN_LIFETIME_SECS) as u64;
    &&& now + TOKEN_LIFETIME_SECS <= u64::MAX
    &&& t == hs256_token(user_id, exp, secret)
    &&& hs256_signature_valid(t, secret)
    &&& token_claims(t) == (ClaimFields { user_id: Some(user_id as i64), exp: Some(exp) })
    &&& forall|i: int| 0 <= i < t.len() ==> is_token_char(#[trigger] t[i])
    &&& token_expiry_of(t) == Some(exp)
}

/// A token issued at time `now` expires exactly seven days later, as the
/// server reads it and as the client reads it.
pub proof fn lemma_issued_token_expires_in_seven_days(
    user_id: i32,
    secret: Seq<u8>,
    now: u64,
    t: Seq<char>,
)
    requires
        issued_token(user_id, secret, now, t),
    ensures
        token_claims(t).exp == Some((now + 604800) as u64),
        token_expiry_of(t) == Some((now + 604800) as u64),
        now + 604800 <= u64::MAX,
{
}

/// Claims are refused only for their content: claims with an expiry and a
/// `userId` that is a positive 32-bit id name exactly that user, and claims
/// without an expiry or without a positive 32-bit `userId` name no user.
pub proof fn lemma_claims_name_positive_users(c: ClaimFields)
    ensures
        c.exp is Some && (c.user_id matches Some(u) && 0 < u <= i32::MAX) ==> claims_user(c)
            == Some(c.user_id->0 as i32),
        !(c.exp is Some && (c.user_id matches Some(u) && 0 < u <= i32::MAX)) ==> claims_user(c)
            is None,
{
}

/// Token issue has no randomness: two tokens issued for the same user,
/// under the same secret, in the same second are the same token.
pub proof fn lemma_issue_is_deterministic(
    user_id: i32,
    secret: Seq<u8>,
    now: u64,
    t1: Seq<char>,
    t2: Seq<char>,
)
    requires
        issued_token(user_id, secret, now, t1),
        issued_token(user_id, secret, now, t2),
    ensures
        t1 == t2,
{
}

/// Tokens issued for different users are different tokens: each reads
/// back as the user it was issued for.
pub proof fn lemma_tokens_of_different_users_differ(
    u1: i32,
    u2: i32,
    secret: Seq<u8>,
    now: u64,
    t1: Seq<char>,
    t2: Seq<char>,
)
    requires
        issued_token(u1, secret, now, t1),
        issued_token(u2, secret, now, t2),
        u1 != u2,
    ensures
        t1 != t2,
{
    assert(token_claims(t1).user_id != token_claims(t2).user_id);
}

/// The token issued at time `now` (seconds since the epoch) for `user_id`:
/// it expires seven days later. It is issued exactly when that expiry fits
/// in 64 bits; a later time gives the token error.
pub fn token_for_at(user_id: i32, secret: &str, now: u64) -> (r: Result<String, ApiError>)
    ensures
        match r {
            Ok(t) => issued_token(user_id, secret.spec_bytes(), now, t@),
            Err(e) => e == ApiError::TokenCreationFailed && now + TOKEN_LIFETIME_SECS > u64::MAX,
        },
{
    let exp = match now.checked_add(TOKEN_LIFETIME_SECS) {
        Some(exp) => exp,
        None => return Err(ApiError::TokenCreationFailed),
    };
    match jwt_encode_hs256(user_id, exp, secret.as_bytes()) {
        Ok(t) => Ok(t),
        Err(_) => Err(ApiError::TokenCreationFailed),
    }
}

/// The token issued from a reading of the clock: a failed reading (a clock
/// before the epoch) gives the token error; a reading `now` gives what
/// `token_for_at` gives for `now`.
pub fn token_at_clock(user_id: i32, secret: &str, clock: Result<u64, ()>) -> (r: Result<
    String,
    ApiError,
>)
    ensures
        match clock {
            Err(_) => r == Err::<String, ApiError>(ApiError::TokenCreationFailed),
            Ok(now) => match r {
                Ok(t) => issued_token(user_id, secret.spec_bytes(), now, t@),
                Err(e) => e == ApiError::TokenCreationFailed && now + TOKEN_LIFETIME_SECS
                    > u64::MAX,
            },
        },
{
    match clock {
        Ok(now) => token_for_at(user_id, secret, now),
        Err(_) => Err(ApiError::TokenCreationFailed),
    }
}

/// Issues a token for `user_id` that expires seven days from the current
/// time. What holds whatever the clock reads: a token is the one that
/// `token_for_at` issues for some time, so it carries `user_id` and an
/// expiry seven days after that time; an error is the token error.
pub fn token_for(user_id: i32, secret: &str) -> (r: Result<String, ApiError>)
    ensures
        match r {
            Ok(t) => exists|now: u64| #[trigger] issued_token(user_id, secret.spec_bytes(), now, t@),
            Err(e) => e == ApiError::TokenCreationFailed,
        },
{
    let clock = match unix_time_secs() {
        Ok(now) => Ok(now),
        Err(_) => Err(()),
    };
    token_at_clock(user_id, secret, clock)
}

/// Whether a header byte is visible ASCII or a tab, the bytes that
/// `HeaderValue::to_str` accepts.
pub open spec fn is_visible_header_byte(b: u8) -> bool {
    (32 <= b && b < 127) || b == 9
}

/// The bytes of `"Bearer "`.
pub open spec fn bearer_prefix() -> Seq<u8> {
    seq![66u8, 101u8, 97u8, 114u8, 101u8, 114u8, 32u8]
}

/// Bytes read as the characters with the same codes.
pub open spec fn bytes_as_chars(b: Seq<u8>) -> Seq<char> {
    b.map_values(|x: u8| x as char)
}

/// The token that an `Authorization` header carries: the header must be
/// present, made of visible ASCII (or tabs), and start with `"Bearer "`;
/// the token is the rest of it.
pub open spec fn bearer_token(header: Option<Seq<u8>>) -> Option<Seq<char>> {
    match header {
        Some(h) => if (forall|i: int| 0 <= i < h.len() ==> is_visible_header_byte(#[trigger] h[i]))
            && h.len() >= 7 && h.take(7) == bearer_prefix() {
            Some(bytes_as_chars(h.skip(7)))
        } else {
            None
        },
        None => None,
    }
}

/// The user that accepted claims name: the `userId` member must be a
/// positive 32-bit integer and the `exp` member must be present.
pub open spec fn claims_user(c: ClaimFields) -> Option<i32> {
    match (c.user_id, c.exp) {
        (Some(u), Some(_)) => if 0 < u <= i32::MAX {
            Some(u as i32)
        } else {
            None
        },
        _ => None,
    }
}

/// The token of an `Authorization` header, as `bearer_token` defines it.
pub fn bearer_token_of(header: Option<&[u8]>) -> (r: Option<String>)
    ensures
        match header {
            Some(h) => match r {
                Some(t) => bearer_token(Some(h@)) == Some(t@),
                None => bearer_token(Some(h@)) is None,
            },
            None => r is None,
        },
{
    let h = match header {
        Some(h) => h,
        None => return None,
    };
    let mut i: usize = 0;
    while i < h.len()
        invariant
            i <= h@.len(),
            header == Some(h),
            forall|k: int| 0 <= k < i ==> is_visible_header_byte(#[trigger] h@[k]),
        decreases h.len() - i,
    {
        let b = h[i];
        if !((32 <= b && b < 127) || b == 9) {
            assert(!is_visible_header_byte(h@[i as int]));
            return None;
        }
        i = i + 1;
    }
    if h.len() < 7 || h[0] != 66 || h[1] != 101 || h[2] != 97 || h[3] != 114 || h[4] != 101
        || h[5] != 114 || h[6] != 32 {
        proof {
            if h@.len() >= 7 && h@.take(7) == bearer_prefix() {
                assert(h@.take(7)[0] == h@[0]);
                assert(h@.take(7)[1] == h@[1]);
                assert(h@.take(7)[2] == h@[2]);
                assert(h@.take(7)[3] == h@[3]);
                assert(h@.take(7)[4] == h@[4]);
                assert(h@.take(7)[5] == h@[5]);
                assert(h@.take(7)[6] == h@[6]);
            }
        }
        return None;
    }
    assert(h@.take(7) == bearer_prefix());
    let mut t = String::new();
    let mut j: usize = 7;
    while j < h.len()
        invariant
            7 <= j <= h@.len(),
            t@ == bytes_as_chars(h@.subrange(7, j as int)),
        decreases h.len() - j,
    {
        t.push(h[j] as char);
        assert(bytes_as_chars(h@.subrange(7, j + 1)) == bytes_as_chars(
            h@.subrange(7, j as int),
        ).push(h@[j as int] as char));
        j = j + 1;
    }
    assert(h@.subrange(7, h@.len() as int) == h@.skip(7));
    Some(t)
}

/// The decision on decoded claims: accepted claims that name a user give
/// that user; anything else is an invalid token.
pub fn user_of_claims(decoded: Result<ClaimFields, ()>) -> (r: Result<i32, ApiError>)
    ensures
        r == match decoded {
            Ok(c) => match claims_user(c) {
                Some(u) => Ok(u),
                None => Err(ApiError::InvalidToken),
            },
            Err(_) => Err(ApiError::InvalidToken),
        },
{
    match decoded {
        Ok(c) => match (c.user_id, c.exp) {
            (Some(u), Some(_)) => {
                if 0 < u && u <= i32::MAX as i64 {
                    Ok(u as i32)
                } else {
                    Err(ApiError::InvalidToken)
                }
            },
            _ => Err(ApiError::InvalidToken),
        },
        Err(_) => Err(ApiError::InvalidToken),
    }
}

/// The signed-in user of a request to a summary route, from its
/// `Authorization` header. Without a well-formed bearer header the answer
/// is `Unauthorized`; a token that is not accepted, or whose claims do not
/// name a positive user id, is an invalid token. An accepted token carries
/// a valid HS256 signature under `secret`, and the accepted user is the one
/// that its claims name.
pub fn authenticated_user(authorization: Option<&[u8]>, secret: &str) -> (r: Result<
    i32,
    ApiError,
>)
    ensures
        match authorization {
            None => r == Err::<i32, ApiError>(ApiError::Unauthorized),
            Some(h) => match bearer_token(Some(h@)) {
                None => r == Err::<i32, ApiError>(ApiError::Unauthorized),
                Some(t) => match r {
                    Ok(u) => claims_user(token_claims(t)) == Some(u) && hs256_signature_valid(
                        t,
                        secret.spec_bytes(),
                    ),
                    Err(e) => e == ApiError::InvalidToken,
                },
            },
        },
{
    let token = match bearer_token_of(authorization) {
        Some(t) => t,
        None => return Err(ApiError::Unauthorized),
    };
    let decoded = match jwt_decode_hs256(token.as_str(), secret.as_bytes()) {
        Ok(c) => Ok(c),
        Err(_) => Err(()),
    };
    user_of_claims(decoded)
}

/// The header that the client sends with a token: `"Bearer "` followed by
/// the token's characters as bytes.
pub open spec fn bearer_header(token: Seq<char>) -> Seq<u8> {
    bearer_prefix() + token.map_values(|c: char| c as u8)
}

/// A token made of base64url text and dots, sent as `Bearer <token>`, is
/// read back from the header as the same token.
pub proof fn lemma_bearer_header_round_trip(token: Seq<char>)
    requires
        forall|i: int| 0 <= i < token.len() ==> is_token_char(#[trigger] token[i]),
    ensures
        bearer_token(Some(bearer_header(token))) == Some(token),
{
    let h = bearer_header(token);
    assert forall|i: int| 0 <= i < h.len() implies is_visible_header_byte(#[trigger] h[i]) by {
        if i >= 7 {
            assert(h[i] == token[i - 7] as u8);
            assert(is_token_char(token[i - 7]));
        }
    }
    assert(h.take(7) == bearer_prefix());
    assert forall|i: int| 0 <= i < token.len() implies (#[trigger] bytes_as_chars(h.skip(7))[i])
        == token[i] by {
        assert(h.skip(7)[i] == token[i] as u8);
        assert(is_token_char(token[i]));
    }
    assert(bytes_as_chars(h.skip(7)) == token);
}

/// A token issued for a user with a positive id names that user when it is
/// read back: whenever decoding accepts such a token, the request is
/// authenticated as the user it was issued for.
pub proof fn lemma_issued_token_names_user(token: Seq<char>, user_id: i32, exp: u64)
    requires
        token_claims(token) == (ClaimFields { user_id: Some(user_id as i64), exp: Some(exp) }),
        user_id > 0,
    ensures
        claims_user(token_claims(token)) == Some(user_id),
{
}

} // verus!
