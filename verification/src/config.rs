//! The server's settings from its environment: the token secret, the
//! allowed browser origin and the listening address.
use crate::account::{byte_len, byte_len_exceeds};
use crate::text::{chars_of, push_all};
use vstd::prelude::*;

verus! {

/// The secret must be at least 32 bytes long.
pub open spec fn secret_allowed(secret: Seq<char>) -> bool {
    byte_len(secret) >= 32
}

/// Whether the token secret is long enough.
pub fn check_secret(secret: &str) -> (b: bool)
    ensures
        b == secret_allowed(secret@),
{
    let v = chars_of(secret);
    byte_len_exceeds(&v, 31)
}

/// The origin allowed to call the API: the configured one, or the local
/// development client.
pub fn cors_origin(configured: Option<String>) -> (r: String)
    ensures
        r@ == match configured {
            Some(o) => o@,
            None => "http://localhost:5173"@,
        },
{
    match configured {
        Some(o) => o,
        None => "http://localhost:5173".to_owned(),
    }
}

/// The address to listen on, `host:port`, with `127.0.0.1` and `3000` when
/// they are not configured.
pub fn listen_address(host: Option<String>, port: Option<String>) -> (r: String)
    ensures
        r@ == match host {
            Some(h) => h@,
            None => "127.0.0.1"@,
        } + ":"@ + match port {
            Some(p) => p@,
            None => "3000"@,
        },
{
    let mut r = match host {
        Some(h) => h,
        None => "127.0.0.1".to_owned(),
    };
    push_all(&mut r, ":");
    match port {
        Some(p) => push_all(&mut r, p.as_str()),
        None => push_all(&mut r, "3000"),
    }
    r
}

} // verus!
