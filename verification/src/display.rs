//! Text that the browser client shows: excerpts of summaries, creation
//! times, decimal numbers and the addresses of API routes.
use crate::text::{
    chars_of, collapse_whitespace, collapse_ws, push_all, string_of, string_of_range, trim_end,
    trim_end_len,
};
use vstd::prelude::*;

verus! {

/// `s` without all of its trailing `c` characters (`trim_end_matches(c)`).
pub open spec fn strip_trailing(s: Seq<char>, c: char) -> Seq<char>
    decreases s.len(),
{
    if s.len() > 0 && s.last() == c {
        strip_trailing(s.drop_last(), c)
    } else {
        s
    }
}

proof fn lemma_strip_trailing_is(s: Seq<char>, c: char, k: int)
    requires
        0 <= k <= s.len(),
        forall|i: int| k <= i < s.len() ==> #[trigger] s[i] == c,
        k == 0 || s[k - 1] != c,
    ensures
        strip_trailing(s, c) == s.take(k),
    decreases s.len() - k,
{
    if k < s.len() {
        let t = s.drop_last();
        assert forall|i: int| k <= i < t.len() implies #[trigger] t[i] == c by {
            assert(t[i] == s[i]);
        }
        if k > 0 {
            assert(t[k - 1] == s[k - 1]);
        }
        lemma_strip_trailing_is(t, c, k);
        assert(t.take(k) == s.take(k));
    } else {
        assert(s.take(k) == s);
    }
}

/// The length of `v` once its trailing `c` characters are dropped.
fn strip_trailing_len(v: &Vec<char>, c: char) -> (r: usize)
    ensures
        r <= v.len(),
        v@.take(r as int) == strip_trailing(v@, c),
{
    let mut j = v.len();
    while j > 0 && v[j - 1] == c
        invariant
            j <= v.len(),
            forall|k: int| j <= k < v.len() ==> #[trigger] v@[k] == c,
        decreases j,
    {
        j = j - 1;
    }
    proof {
        lemma_strip_trailing_is(v@, c, j as int);
    }
    j
}

/// The address of an API route: the configured API origin without its
/// trailing slashes, followed by the route's path.
pub fn api_url(base: &str, path: &str) -> (r: String)
    ensures
        r@ == strip_trailing(base@, '/') + path@,
{
    let v = chars_of(base);
    let n = strip_trailing_len(&v, '/');
    let mut r = string_of_range(&v, 0, n);
    assert(v@.subrange(0, n as int) == v@.take(n as int));
    push_all(&mut r, path);
    r
}

/// The decimal digit for `d < 10`.
pub open spec fn digit_char(d: nat) -> char {
    (48 + d) as char
}

/// The decimal writing of `n`, without leading zeros.
pub open spec fn decimal(n: nat) -> Seq<char>
    decreases n,
{
    if n < 10 {
        seq![digit_char(n)]
    } else {
        decimal(n / 10).push(digit_char(n % 10))
    }
}

/// The value that a sequence of decimal digits stands for.
pub open spec fn decimal_value(s: Seq<char>) -> nat
    decreases s.len(),
{
    if s.len() == 0 {
        0
    } else {
        decimal_value(s.drop_last()) * 10 + ((s.last() as u32) - 48) as nat
    }
}

/// Appends the decimal writing of `n` to `s`.
pub fn push_decimal(s: &mut String, n: u64)
    ensures
        final(s)@ == old(s)@ + decimal(n as nat),
    decreases n,
{
    if n >= 10 {
        push_decimal(s, n / 10);
    }
    let d = (n % 10) as u8;
    let c = (48u8 + d) as char;
    assert(c == digit_char((n % 10) as nat));
    s.push(c);
}

/// Writing a number in decimal and reading the digits back gives the number.
pub proof fn lemma_decimal_round_trip(n: nat)
    ensures
        decimal_value(decimal(n)) == n,
        decimal(n).len() > 0,
    decreases n,
{
    let d = n % 10;
    assert(digit_char(d) as u32 == 48 + d);
    if n >= 10 {
        lemma_decimal_round_trip(n / 10);
        assert(decimal(n).drop_last() == decimal(n / 10));
        assert(decimal(n).last() == digit_char(d));
        assert(decimal_value(decimal(n)) == decimal_value(decimal(n / 10)) * 10 + d);
        assert(n == (n / 10) * 10 + d);
    } else {
        assert(decimal(n).drop_last().len() == 0);
        assert(decimal(n).last() == digit_char(d));
        assert(decimal_value(decimal(n).drop_last()) == 0);
        assert(decimal_value(decimal(n)) == d);
    }
}

/// The message that the client shows for an API answer that is not a
/// success: the server's `error` field when the body has one, otherwise
/// `Request failed (<status>)`.
pub open spec fn failure_message(status: u16, error_field: Option<Seq<char>>) -> Seq<char> {
    match error_field {
        Some(e) => e,
        None => "Request failed ("@ + decimal(status as nat) + ")"@,
    }
}

/// Whether an HTTP status counts as `ok` for the client (200 to 299).
pub open spec fn is_ok_status(status: u16) -> bool {
    200 <= status <= 299
}

/// The message for a success answer whose body could not be read.
pub open spec fn invalid_response_message() -> Seq<char> {
    "The server returned an invalid response"@
}

/// How the client reads an API answer: on a 2xx status, the parsed body or,
/// when it does not parse, the invalid-response message; otherwise the
/// failure message.
pub fn read_outcome<T>(status: u16, body: Option<T>, error_field: Option<String>) -> (r: Result<
    T,
    String,
>)
    ensures
        is_ok_status(status) ==> match body {
            Some(b) => r == Ok::<T, String>(b),
            None => (r matches Err(m) && m@ == invalid_response_message()),
        },
        !is_ok_status(status) ==> (r matches Err(m) && m@ == failure_message(
            status,
            match error_field {
                Some(e) => Some(e@),
                None => None,
            },
        )),
{
    if 200 <= status && status <= 299 {
        match body {
            Some(b) => Ok(b),
            None => Err("The server returned an invalid response".to_owned()),
        }
    } else {
        match error_field {
            Some(e) => Err(e),
            None => {
                let mut m = "Request failed (".to_owned();
                push_decimal(&mut m, status as u64);
                push_all(&mut m, ")");
                Err(m)
            },
        }
    }
}

/// The index of the last `c` in `s`, or -1 when there is none.
pub open spec fn last_index_of(s: Seq<char>, c: char) -> int
    decreases s.len(),
{
    if s.len() == 0 {
        -1
    } else if s.last() == c {
        s.len() - 1
    } else {
        last_index_of(s.drop_last(), c)
    }
}

/// An excerpt of at most `limit` characters of a text: the text with its
/// whitespace collapsed when that fits; otherwise its first `limit`
/// characters cut back to before their last space, with trailing
/// whitespace dropped and an ellipsis added.
pub open spec fn excerpt_of(text: Seq<char>, limit: nat) -> Seq<char> {
    let clean = collapse_ws(text);
    if clean.len() <= limit {
        clean
    } else {
        let short = clean.take(limit as int);
        let k = last_index_of(short, ' ');
        let head = if k >= 0 {
            short.take(k)
        } else {
            short
        };
        trim_end(head).push('…')
    }
}

proof fn lemma_last_index_is(s: Seq<char>, c: char, k: int)
    requires
        -1 <= k < s.len(),
        forall|i: int| k < i < s.len() ==> #[trigger] s[i] != c,
        k >= 0 ==> s[k] == c,
    ensures
        last_index_of(s, c) == k,
    decreases s.len(),
{
    if s.len() > 0 && s.len() - 1 != k {
        let t = s.drop_last();
        assert forall|i: int| k < i < t.len() implies #[trigger] t[i] != c by {
            assert(t[i] == s[i]);
        }
        if k >= 0 {
            assert(t[k] == s[k]);
        }
        lemma_last_index_is(t, c, k);
    }
}

proof fn lemma_last_index_bounds(s: Seq<char>, c: char)
    ensures
        -1 <= last_index_of(s, c) < s.len(),
    decreases s.len(),
{
    if s.len() > 0 && s.last() != c {
        lemma_last_index_bounds(s.drop_last(), c);
    }
}

/// An excerpt is never longer than the limit plus the ellipsis: a text
/// whose collapsed form fits is shown whole; a longer one is shown as a
/// prefix of its collapsed form followed by `…`.
pub proof fn lemma_excerpt_shape(text: Seq<char>, limit: nat)
    ensures
        excerpt_of(text, limit).len() <= limit + 1,
        collapse_ws(text).len() <= limit ==> excerpt_of(text, limit) == collapse_ws(text),
        collapse_ws(text).len() > limit ==> {
            &&& excerpt_of(text, limit).last() == '…'
            &&& excerpt_of(text, limit).drop_last().is_prefix_of(collapse_ws(text))
        },
{
    let clean = collapse_ws(text);
    if clean.len() > limit {
        let short = clean.take(limit as int);
        let k = last_index_of(short, ' ');
        lemma_last_index_bounds(short, ' ');
        let head = if k >= 0 {
            short.take(k)
        } else {
            short
        };
        crate::text::lemma_trailing_ws_facts(head);
        let e = trim_end(head);
        assert(e.len() <= limit);
        assert(excerpt_of(text, limit) == e.push('…'));
        assert(e.push('…').drop_last() == e);
        assert forall|i: int| 0 <= i < e.len() implies e[i] == clean[i] by {
            assert(e[i] == head[i]);
            assert(head[i] == short[i]);
        }
    }
}

/// A history card that cannot expand shows its whole summary, with
/// whitespace collapsed: the preview of at most 220 characters is then the
/// collapsed summary itself.
pub proof fn lemma_short_summary_shown_whole(summary: Seq<char>)
    requires
        !(collapse_ws(summary).len() > 220),
    ensures
        excerpt_of(summary, 220) == collapse_ws(summary),
{
}

/// Trailing slashes of the configured API origin do not change the address
/// of a route.
pub proof fn lemma_api_url_ignores_trailing_slash(base: Seq<char>, path: Seq<char>)
    ensures
        strip_trailing(base.push('/'), '/') + path == strip_trailing(base, '/') + path,
{
    assert(base.push('/').drop_last() == base);
}

/// A short preview of a text (`excerpt` in the history cards).
pub fn excerpt(text: &str, limit: usize) -> (r: String)
    ensures
        r@ == excerpt_of(text@, limit as nat),
{
    let v = chars_of(text);
    let clean = collapse_whitespace(&v);
    if clean.len() <= limit {
        return string_of(&clean);
    }
    let ghost short = clean@.take(limit as int);
    let mut k: usize = limit;
    while k > 0 && clean[k - 1] != ' '
        invariant
            k <= limit < clean@.len(),
            forall|i: int| k <= i < limit ==> #[trigger] clean@[i] != ' ',
        decreases k,
    {
        k = k - 1;
    }
    let head_len = if k > 0 {
        proof {
            assert forall|i: int| k - 1 < i < short.len() implies #[trigger] short[i] != ' ' by {
                assert(short[i] == clean@[i]);
            }
            lemma_last_index_is(short, ' ', k - 1);
            assert(short.take(k - 1) == clean@.take(k - 1));
        }
        k - 1
    } else {
        proof {
            assert forall|i: int| -1 < i < short.len() implies #[trigger] short[i] != ' ' by {
                assert(short[i] == clean@[i]);
            }
            lemma_last_index_is(short, ' ', -1);
        }
        limit
    };
    let end = trim_end_len(&clean, head_len);
    let mut r = string_of_range(&clean, 0, end);
    assert(clean@.subrange(0, end as int) == clean@.take(end as int));
    r.push('…');
    r
}

/// Whether a history card can expand its summary: the summary, with its
/// whitespace collapsed, is longer than 220 characters.
pub fn can_expand(summary: &str) -> (b: bool)
    ensures
        b == (collapse_ws(summary@).len() > 220),
{
    let v = chars_of(summary);
    let clean = collapse_whitespace(&v);
    clean.len() > 220
}

/// `s` with every `T` replaced by a space.
pub open spec fn t_to_space(s: Seq<char>) -> Seq<char> {
    s.map_values(|c: char| if c == 'T' { ' ' } else { c })
}

/// How a history card shows a creation time: `T` becomes a space, trailing
/// `Z`s are dropped, and ` UTC` follows.
pub open spec fn time_label_of(created_at: Seq<char>) -> Seq<char> {
    strip_trailing(t_to_space(created_at), 'Z') + " UTC"@
}

/// The creation time as a history card shows it.
pub fn time_label(created_at: &str) -> (r: String)
    ensures
        r@ == time_label_of(created_at@),
{
    let v = chars_of(created_at);
    let mut w: Vec<char> = Vec::new();
    let mut i: usize = 0;
    while i < v.len()
        invariant
            i <= v.len(),
            v@ == created_at@,
            w@ == t_to_space(v@.take(i as int)),
        decreases v.len() - i,
    {
        let c = v[i];
        w.push(if c == 'T' { ' ' } else { c });
        assert(t_to_space(v@.take(i + 1)) == t_to_space(v@.take(i as int)).push(
            if c == 'T' { ' ' } else { c },
        ));
        i = i + 1;
    }
    assert(v@.take(v@.len() as int) == v@);
    let n = strip_trailing_len(&w, 'Z');
    let mut r = string_of_range(&w, 0, n);
    assert(w@.subrange(0, n as int) == w@.take(n as int));
    push_all(&mut r, " UTC");
    r
}

} // verus!
