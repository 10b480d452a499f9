//! Character-level text handling shared by the server and the client:
//! Unicode whitespace, trimming, whitespace collapsing and string building.
use vstd::prelude::*;

verus! {

/// Facts about `leading_ws`: it counts a whitespace prefix that ends at a
/// non-whitespace character or at the end.
pub proof fn lemma_leading_ws_facts(s: Seq<char>)
    ensures
        leading_ws(s) <= s.len(),
        forall|i: int| 0 <= i < leading_ws(s) ==> is_white_space(#[trigger] s[i]),
        leading_ws(s) < s.len() ==> !is_white_space(s[leading_ws(s) as int]),
    decreases s.len(),
{
    if s.len() > 0 && is_white_space(s[0]) {
        let t = s.drop_first();
        lemma_leading_ws_facts(t);
        assert forall|i: int| 0 <= i < leading_ws(s) implies is_white_space(#[trigger] s[i]) by {
            if i > 0 {
                assert(s[i] == t[i - 1]);
            }
        }
        if leading_ws(s) < s.len() {
            assert(s[leading_ws(s) as int] == t[leading_ws(t) as int]);
        }
    }
}

/// Facts about `trailing_ws`: it counts a whitespace suffix that starts
/// after a non-whitespace character or at the start.
pub proof fn lemma_trailing_ws_facts(s: Seq<char>)
    ensures
        trailing_ws(s) <= s.len(),
        forall|i: int| s.len() - trailing_ws(s) <= i < s.len() ==> is_white_space(#[trigger] s[i]),
        trailing_ws(s) < s.len() ==> !is_white_space(s[s.len() - trailing_ws(s) - 1]),
    decreases s.len(),
{
    if s.len() > 0 && is_white_space(s.last()) {
        let t = s.drop_last();
        lemma_trailing_ws_facts(t);
        assert forall|i: int| s.len() - trailing_ws(s) <= i < s.len() implies is_white_space(
            #[trigger] s[i],
        ) by {
            if i < s.len() - 1 {
                assert(s[i] == t[i]);
            }
        }
        if trailing_ws(s) < s.len() {
            assert(s[s.len() - trailing_ws(s) - 1] == t[t.len() - trailing_ws(t) - 1]);
        }
    }
}

/// Trimming twice is trimming once.
pub proof fn lemma_trim_idempotent(s: Seq<char>)
    ensures
        trim(trim(s)) == trim(s),
{
    let u = trim_start(s);
    let t = trim(s);
    lemma_leading_ws_facts(s);
    lemma_trailing_ws_facts(u);
    lemma_leading_ws_facts(u);
    if leading_ws(u) > 0 {
        assert(u[0] == s[leading_ws(s) as int]);
    }
    assert(leading_ws(u) == 0);
    if t.len() > 0 {
        assert(t[0] == u[0]);
        assert(t.last() == u[t.len() - 1]);
    }
    lemma_leading_ws_is(t, 0);
    lemma_trailing_ws_is(t, t.len() as int);
    assert(trim_start(t) == t);
    assert(trim_end(t) == t);
}

/// The shape of a collapsed text: whitespace in it is only single spaces,
/// each between two non-whitespace characters.
pub proof fn lemma_collapse_ws_shape(s: Seq<char>)
    ensures
        forall|i: int|
            0 <= i < collapse_ws(s).len() && is_white_space(#[trigger] collapse_ws(s)[i]) ==> {
                &&& collapse_ws(s)[i] == ' '
                &&& 0 < i < collapse_ws(s).len() - 1
                &&& !is_white_space(collapse_ws(s)[i - 1])
                &&& !is_white_space(collapse_ws(s)[i + 1])
            },
        collapse_ws(s).len() > 0 ==> !is_white_space(collapse_ws(s).last()),
    decreases s.len(),
{
    if s.len() > 0 {
        let prev = collapse_ws(s.drop_last());
        lemma_collapse_ws_shape(s.drop_last());
        let c = s.last();
        let r = collapse_ws(s);
        if is_white_space(c) {
        } else if s.len() >= 2 && is_white_space(s[s.len() - 2]) && prev.len() > 0 {
            assert(r == prev.push(' ').push(c));
            assert forall|i: int|
                0 <= i < r.len() && is_white_space(#[trigger] r[i]) implies {
                &&& r[i] == ' '
                &&& 0 < i < r.len() - 1
                &&& !is_white_space(r[i - 1])
                &&& !is_white_space(r[i + 1])
            } by {
                if i < prev.len() {
                    assert(r[i] == prev[i]);
                    assert(r[i - 1] == prev[i - 1]);
                    if i + 1 < prev.len() {
                        assert(r[i + 1] == prev[i + 1]);
                    }
                }
            }
        } else {
            assert(r == prev.push(c));
            assert forall|i: int|
                0 <= i < r.len() && is_white_space(#[trigger] r[i]) implies {
                &&& r[i] == ' '
                &&& 0 < i < r.len() - 1
                &&& !is_white_space(r[i - 1])
                &&& !is_white_space(r[i + 1])
            } by {
                assert(r[i] == prev[i]);
                assert(r[i - 1] == prev[i - 1]);
                if i + 1 < prev.len() {
                    assert(r[i + 1] == prev[i + 1]);
                }
            }
        }
    }
}

/// Whether `s` holds no whitespace character.
pub open spec fn no_white_space(s: Seq<char>) -> bool {
    forall|i: int| 0 <= i < s.len() ==> !is_white_space(#[trigger] s[i])
}

/// Whether `s` is made of whitespace characters only.
pub open spec fn all_white_space(s: Seq<char>) -> bool {
    forall|i: int| 0 <= i < s.len() ==> is_white_space(#[trigger] s[i])
}

/// A single word is kept as it is.
pub proof fn lemma_collapse_ws_word(w: Seq<char>)
    requires
        no_white_space(w),
    ensures
        collapse_ws(w) == w,
    decreases w.len(),
{
    if w.len() > 0 {
        let p = w.drop_last();
        assert(no_white_space(p)) by {
            assert forall|i: int| 0 <= i < p.len() implies !is_white_space(#[trigger] p[i]) by {
                assert(p[i] == w[i]);
            }
        }
        lemma_collapse_ws_word(p);
        assert(!is_white_space(w.last()));
        if w.len() >= 2 {
            assert(!is_white_space(w[w.len() - 2]));
        }
        assert(p.push(w.last()) == w);
    }
}

/// Whitespace at the end of a text is dropped.
pub proof fn lemma_collapse_ws_trailing(s: Seq<char>, ws: Seq<char>)
    requires
        all_white_space(ws),
    ensures
        collapse_ws(s + ws) == collapse_ws(s),
    decreases ws.len(),
{
    if ws.len() > 0 {
        let t = s + ws;
        let p = ws.drop_last();
        assert(all_white_space(p)) by {
            assert forall|i: int| 0 <= i < p.len() implies is_white_space(#[trigger] p[i]) by {
                assert(p[i] == ws[i]);
            }
        }
        assert(t.drop_last() == s + p);
        assert(t.last() == ws.last());
        assert(is_white_space(ws[ws.len() - 1]));
        lemma_collapse_ws_trailing(s, p);
    }
}

/// A word that follows whitespace is joined to what comes before by
/// exactly one space (or starts the text when nothing came before): the
/// collapsed text is the words joined by single spaces, whatever the
/// whitespace between them.
pub proof fn lemma_collapse_ws_next_word(s: Seq<char>, ws: Seq<char>, w: Seq<char>)
    requires
        ws.len() > 0,
        all_white_space(ws),
        w.len() > 0,
        no_white_space(w),
    ensures
        collapse_ws(s + ws + w) == if collapse_ws(s).len() == 0 {
            w
        } else {
            collapse_ws(s) + seq![' '] + w
        },
    decreases w.len(),
{
    let t = s + ws + w;
    let c = w.last();
    assert(!is_white_space(w[w.len() - 1]));
    assert(t.last() == c);
    if w.len() == 1 {
        assert(t.drop_last() == s + ws);
        assert(t[t.len() - 2] == ws[ws.len() - 1]);
        assert(is_white_space(ws[ws.len() - 1]));
        lemma_collapse_ws_trailing(s, ws);
        assert(seq![c] == w);
        if collapse_ws(s).len() > 0 {
            assert(collapse_ws(s).push(' ').push(c) == collapse_ws(s) + seq![' '] + w);
        } else {
            assert(collapse_ws(s).push(c) == w);
        }
    } else {
        let p = w.drop_last();
        assert(no_white_space(p)) by {
            assert forall|i: int| 0 <= i < p.len() implies !is_white_space(#[trigger] p[i]) by {
                assert(p[i] == w[i]);
            }
        }
        lemma_collapse_ws_next_word(s, ws, p);
        assert(t.drop_last() == s + ws + p);
        assert(t[t.len() - 2] == w[w.len() - 2]);
        assert(!is_white_space(w[w.len() - 2]));
        let prev = collapse_ws(s + ws + p);
        assert(prev.len() > 0);
        if collapse_ws(s).len() == 0 {
            assert(prev.push(c) == w);
        } else {
            assert(prev.push(c) == collapse_ws(s) + seq![' '] + w);
        }
    }
}

/// `String::push` appends one character to the end of the string.
pub assume_specification[ String::push ](s: &mut String, ch: char)
    ensures
        final(s)@ == old(s)@.push(ch),
;

/// The Unicode `White_Space` property, which `char::is_whitespace` tests:
/// U+0009..U+000D, U+0020, U+0085, U+00A0, U+1680, U+2000..U+200A,
/// U+2028, U+2029, U+202F, U+205F and U+3000.
pub open spec fn is_white_space(c: char) -> bool {
    let u = c as u32;
    ||| 0x09 <= u <= 0x0d
    ||| u == 0x20
    ||| u == 0x85
    ||| u == 0xa0
    ||| u == 0x1680
    ||| 0x2000 <= u <= 0x200a
    ||| u == 0x2028
    ||| u == 0x2029
    ||| u == 0x202f
    ||| u == 0x205f
    ||| u == 0x3000
}

/// Whether `c` is Unicode whitespace.
pub fn is_whitespace(c: char) -> (b: bool)
    ensures
        b == is_white_space(c),
{
    let u = c as u32;
    (0x09 <= u && u <= 0x0d) || u == 0x20 || u == 0x85 || u == 0xa0 || u == 0x1680 || (0x2000
        <= u && u <= 0x200a) || u == 0x2028 || u == 0x2029 || u == 0x202f || u == 0x205f || u
        == 0x3000
}

/// Number of whitespace characters at the start of `s`.
pub open spec fn leading_ws(s: Seq<char>) -> nat
    decreases s.len(),
{
    if s.len() == 0 || !is_white_space(s[0]) {
        0
    } else {
        1 + leading_ws(s.drop_first())
    }
}

/// Number of whitespace characters at the end of `s`.
pub open spec fn trailing_ws(s: Seq<char>) -> nat
    decreases s.len(),
{
    if s.len() == 0 || !is_white_space(s.last()) {
        0
    } else {
        1 + trailing_ws(s.drop_last())
    }
}

/// `s` without its leading whitespace (`str::trim_start`).
pub open spec fn trim_start(s: Seq<char>) -> Seq<char> {
    s.skip(leading_ws(s) as int)
}

/// `s` without its trailing whitespace (`str::trim_end`).
pub open spec fn trim_end(s: Seq<char>) -> Seq<char> {
    s.take(s.len() - trailing_ws(s))
}

/// `s` without leading and trailing whitespace (`str::trim`).
pub open spec fn trim(s: Seq<char>) -> Seq<char> {
    trim_end(trim_start(s))
}

/// The words of `s` (maximal runs of non-whitespace characters) joined by
/// single spaces, as `s.split_whitespace().collect::<Vec<_>>().join(" ")`
/// gives them. Defined one character at a time from the left.
pub open spec fn collapse_ws(s: Seq<char>) -> Seq<char>
    decreases s.len(),
{
    if s.len() == 0 {
        seq![]
    } else {
        let prev = collapse_ws(s.drop_last());
        let c = s.last();
        if is_white_space(c) {
            prev
        } else if s.len() >= 2 && is_white_space(s[s.len() - 2]) && prev.len() > 0 {
            prev.push(' ').push(c)
        } else {
            prev.push(c)
        }
    }
}

proof fn lemma_leading_ws_is(s: Seq<char>, k: int)
    requires
        0 <= k <= s.len(),
        forall|i: int| 0 <= i < k ==> is_white_space(#[trigger] s[i]),
        k == s.len() || !is_white_space(s[k]),
    ensures
        leading_ws(s) == k,
    decreases k,
{
    if k > 0 {
        let t = s.drop_first();
        assert forall|i: int| 0 <= i < k - 1 implies is_white_space(#[trigger] t[i]) by {
            assert(t[i] == s[i + 1]);
        }
        if k - 1 < t.len() {
            assert(t[k - 1] == s[k]);
        }
        lemma_leading_ws_is(t, k - 1);
    }
}

proof fn lemma_trailing_ws_is(s: Seq<char>, k: int)
    requires
        0 <= k <= s.len(),
        forall|i: int| k <= i < s.len() ==> is_white_space(#[trigger] s[i]),
        k == 0 || !is_white_space(s[k - 1]),
    ensures
        trailing_ws(s) == s.len() - k,
    decreases s.len() - k,
{
    if k < s.len() {
        let t = s.drop_last();
        assert forall|i: int| k <= i < t.len() implies is_white_space(#[trigger] t[i]) by {
            assert(t[i] == s[i]);
        }
        if k > 0 {
            assert(t[k - 1] == s[k - 1]);
        }
        lemma_trailing_ws_is(t, k);
    }
}

/// The characters of `s`.
pub fn chars_of(s: &str) -> (r: Vec<char>)
    ensures
        r@ == s@,
{
    let mut out: Vec<char> = Vec::new();
    for c in it: s.chars()
        invariant
            out@ == it.seq().take(it.index() as int),
    {
        out.push(c);
    }
    out
}

/// A string holding the characters `v[from..to]`.
pub fn string_of_range(v: &Vec<char>, from: usize, to: usize) -> (s: String)
    requires
        from <= to <= v.len(),
    ensures
        s@ == v@.subrange(from as int, to as int),
{
    let mut s = String::new();
    let mut i = from;
    while i < to
        invariant
            from <= i <= to <= v.len(),
            s@ == v@.subrange(from as int, i as int),
        decreases to - i,
    {
        s.push(v[i]);
        assert(v@.subrange(from as int, i + 1) == v@.subrange(from as int, i as int).push(v@[i as int]));
        i = i + 1;
    }
    s
}

/// A string holding the characters of `v`.
pub fn string_of(v: &Vec<char>) -> (s: String)
    ensures
        s@ == v@,
{
    let s = string_of_range(v, 0, v.len());
    assert(v@.subrange(0, v@.len() as int) == v@);
    s
}

/// Appends the characters of `t` to `s`.
pub fn push_all(s: &mut String, t: &str)
    ensures
        final(s)@ == old(s)@ + t@,
{
    let v = chars_of(t);
    let mut i: usize = 0;
    while i < v.len()
        invariant
            i <= v.len(),
            v@ == t@,
            s@ == old(s)@ + v@.take(i as int),
        decreases v.len() - i,
    {
        s.push(v[i]);
        assert(v@.take(i + 1) == v@.take(i as int).push(v@[i as int]));
        i = i + 1;
    }
    assert(v@.take(v@.len() as int) == v@);
}

/// The index range `[from, to)` of `v` that is left once leading and
/// trailing whitespace is dropped.
pub fn trimmed_range(v: &Vec<char>) -> (r: (usize, usize))
    ensures
        r.0 <= r.1 <= v.len(),
        v@.subrange(r.0 as int, r.1 as int) == trim(v@),
{
    let n = v.len();
    let mut i: usize = 0;
    while i < n && is_whitespace(v[i])
        invariant
            i <= n == v.len(),
            forall|k: int| 0 <= k < i ==> is_white_space(#[trigger] v@[k]),
        decreases n - i,
    {
        i = i + 1;
    }
    proof {
        lemma_leading_ws_is(v@, i as int);
    }
    let mut j: usize = n;
    while j > i && is_whitespace(v[j - 1])
        invariant
            i <= j <= n == v.len(),
            forall|k: int| j <= k < n ==> is_white_space(#[trigger] v@[k]),
        decreases j - i,
    {
        j = j - 1;
    }
    proof {
        let t = v@.skip(i as int);
        assert forall|k: int| j - i <= k < t.len() implies is_white_space(#[trigger] t[k]) by {
            assert(t[k] == v@[k + i]);
        }
        if j > i {
            assert(t[j - i - 1] == v@[j - 1]);
        }
        lemma_trailing_ws_is(t, j - i);
        assert(t.take(j - i) == v@.subrange(i as int, j as int));
    }
    (i, j)
}

/// `s.trim()` as an owned string.
pub fn trimmed(s: &str) -> (r: String)
    ensures
        r@ == trim(s@),
{
    let v = chars_of(s);
    let (i, j) = trimmed_range(&v);
    string_of_range(&v, i, j)
}

/// The length of `v` once trailing whitespace is dropped.
pub fn trim_end_len(v: &Vec<char>, len: usize) -> (r: usize)
    requires
        len <= v.len(),
    ensures
        r <= len,
        v@.take(r as int) == trim_end(v@.take(len as int)),
{
    let mut j: usize = len;
    while j > 0 && is_whitespace(v[j - 1])
        invariant
            j <= len <= v.len(),
            forall|k: int| j <= k < len ==> is_white_space(#[trigger] v@[k]),
        decreases j,
    {
        j = j - 1;
    }
    proof {
        let t = v@.take(len as int);
        assert forall|k: int| j <= k < t.len() implies is_white_space(#[trigger] t[k]) by {
            assert(t[k] == v@[k]);
        }
        if j > 0 {
            assert(t[j - 1] == v@[j - 1]);
        }
        lemma_trailing_ws_is(t, j as int);
        assert(t.take(j as int) == v@.take(j as int));
    }
    j
}

/// `split_whitespace` followed by `join(" ")`, over characters.
pub fn collapse_whitespace(v: &Vec<char>) -> (r: Vec<char>)
    ensures
        r@ == collapse_ws(v@),
{
    let mut out: Vec<char> = Vec::new();
    let mut i: usize = 0;
    while i < v.len()
        invariant
            i <= v.len(),
            out@ == collapse_ws(v@.take(i as int)),
        decreases v.len() - i,
    {
        let c = v[i];
        let t = Ghost(v@.take(i + 1));
        assert(t@.drop_last() == v@.take(i as int));
        assert(t@.last() == c);
        if is_whitespace(c) {
        } else if i >= 1 && is_whitespace(v[i - 1]) && out.len() > 0 {
            assert(t@[t@.len() - 2] == v@[i - 1]);
            out.push(' ');
            out.push(c);
        } else {
            if i >= 1 {
                assert(t@[t@.len() - 2] == v@[i - 1]);
            }
            out.push(c);
        }
        i = i + 1;
    }
    assert(v@.take(v@.len() as int) == v@);
    out
}

/// Whether `v` holds the character `c`.
pub fn contains_char(v: &Vec<char>, c: char) -> (b: bool)
    ensures
        b == v@.contains(c),
{
    let mut i: usize = 0;
    while i < v.len()
        invariant
            i <= v.len(),
            forall|k: int| 0 <= k < i ==> v@[k] != c,
        decreases v.len() - i,
    {
        if v[i] == c {
            return true;
        }
        i = i + 1;
    }
    false
}

/// What `str::to_lowercase` gives for a string: Unicode lower-case mapping,
/// character by character, with the context rule for a final capital sigma.
pub uninterp spec fn unicode_lowercase(s: Seq<char>) -> Seq<char>;

/// Calls std `str::to_lowercase`; its result is the named function
/// `unicode_lowercase` of the characters of `s`.
#[verifier::external_body]
pub(crate) fn lowercase(s: &str) -> (r: String)
    ensures
        r@ == unicode_lowercase(s@),
{
    s.to_lowercase()
}

} // verus!
