//! Text primitives shared by the parsers and message builders.
//!
//! Every string is modelled by its view, the sequence of its characters.
use vstd::prelude::*;

verus! {

// ---------------------------------------------------------------------------
// Character classes
// ---------------------------------------------------------------------------

pub open spec fn is_ascii_digit(c: char) -> bool {
    '0' <= c && c <= '9'
}

pub open spec fn is_ascii_lower(c: char) -> bool {
    'a' <= c && c <= 'z'
}

pub open spec fn is_ascii_upper(c: char) -> bool {
    'A' <= c && c <= 'Z'
}

pub open spec fn is_ascii_alphanumeric(c: char) -> bool {
    is_ascii_digit(c) || is_ascii_lower(c) || is_ascii_upper(c)
}

/// The Unicode `White_Space` property, which is what `char::is_whitespace` tests.
pub open spec fn is_whitespace(c: char) -> bool {
    ||| '\u{9}' <= c && c <= '\u{d}'
    ||| c == ' '
    ||| c == '\u{85}'
    ||| c == '\u{a0}'
    ||| c == '\u{1680}'
    ||| '\u{2000}' <= c && c <= '\u{200a}'
    ||| c == '\u{2028}'
    ||| c == '\u{2029}'
    ||| c == '\u{202f}'
    ||| c == '\u{205f}'
    ||| c == '\u{3000}'
}

/// ASCII upper-casing of one character; every other character is kept.
pub open spec fn ascii_upper(c: char) -> char {
    if is_ascii_lower(c) {
        ((c as int) - 32) as char
    } else {
        c
    }
}

pub open spec fn upper_seq(s: Seq<char>) -> Seq<char> {
    Seq::new(s.len(), |i: int| ascii_upper(s[i]))
}

pub open spec fn all_digits(s: Seq<char>) -> bool {
    forall|i: int| 0 <= i < s.len() ==> is_ascii_digit(#[trigger] s[i])
}

pub open spec fn all_alphanumeric(s: Seq<char>) -> bool {
    forall|i: int| 0 <= i < s.len() ==> is_ascii_alphanumeric(#[trigger] s[i])
}

pub fn char_is_digit(c: char) -> (r: bool)
    ensures
        r == is_ascii_digit(c),
{
    '0' <= c && c <= '9'
}

pub fn char_is_alphanumeric(c: char) -> (r: bool)
    ensures
        r == is_ascii_alphanumeric(c),
{
    ('0' <= c && c <= '9') || ('a' <= c && c <= 'z') || ('A' <= c && c <= 'Z')
}

pub fn char_is_whitespace(c: char) -> (r: bool)
    ensures
        r == is_whitespace(c),
{
    ('\u{9}' <= c && c <= '\u{d}') || c == ' ' || c == '\u{85}' || c == '\u{a0}' || c
        == '\u{1680}' || ('\u{2000}' <= c && c <= '\u{200a}') || c == '\u{2028}' || c
        == '\u{2029}' || c == '\u{202f}' || c == '\u{205f}' || c == '\u{3000}'
}

pub fn char_ascii_upper(c: char) -> (r: char)
    ensures
        r == ascii_upper(c),
{
    if 'a' <= c && c <= 'z' {
        let b: u8 = c as u8;
        (b - 32) as char
    } else {
        c
    }
}

// ---------------------------------------------------------------------------
// Conversions between strings and character vectors
// ---------------------------------------------------------------------------

/// Appends one character to a string (`String::push`).
#[verifier::external_body]
pub(crate) fn push_char(s: &mut String, c: char)
    ensures
        final(s)@ == old(s)@.push(c),
{
    s.push(c);
}

pub fn chars_of(s: &str) -> (v: Vec<char>)
    ensures
        v@ == s@,
{
    let n = s.unicode_len();
    let mut v: Vec<char> = Vec::new();
    let mut i: usize = 0;
    while i < n
        invariant
            n == s@.len(),
            i <= n,
            v@ == s@.subrange(0, i as int),
        decreases n - i,
    {
        v.push(s.get_char(i));
        i += 1;
    }
    assert(v@ =~= s@);
    v
}

/// The string made of `v[from..to]`.
pub fn string_from_range(v: &Vec<char>, from: usize, to: usize) -> (s: String)
    requires
        from <= to <= v.len(),
    ensures
        s@ == v@.subrange(from as int, to as int),
{
    let mut s = String::new();
    let mut i: usize = from;
    while i < to
        invariant
            from <= i <= to <= v.len(),
            s@ == v@.subrange(from as int, i as int),
        decreases to - i,
    {
        push_char(&mut s, v[i]);
        i += 1;
        assert(s@ =~= v@.subrange(from as int, i as int));
    }
    s
}

/// Appends `t` to `s`.
pub fn append(s: &mut String, t: &str)
    ensures
        final(s)@ == old(s)@ + t@,
{
    s.append(t);
}

pub fn str_eq(a: &str, b: &str) -> (r: bool)
    ensures
        r == (a@ == b@),
{
    let x = chars_of(a);
    let y = chars_of(b);
    if x.len() != y.len() {
        return false;
    }
    let mut i: usize = 0;
    while i < x.len()
        invariant
            x@ == a@,
            y@ == b@,
            x.len() == y.len(),
            i <= x.len(),
            forall|j: int| 0 <= j < i ==> x@[j] == y@[j],
        decreases x.len() - i,
    {
        if x[i] != y[i] {
            return false;
        }
        i += 1;
    }
    assert(x@ =~= y@);
    true
}

pub open spec fn starts_with(s: Seq<char>, prefix: Seq<char>) -> bool {
    prefix.len() <= s.len() && s.subrange(0, prefix.len() as int) == prefix
}

pub fn str_starts_with(s: &str, prefix: &str) -> (r: bool)
    ensures
        r == starts_with(s@, prefix@),
{
    let x = chars_of(s);
    let p = chars_of(prefix);
    if p.len() > x.len() {
        return false;
    }
    let mut i: usize = 0;
    while i < p.len()
        invariant
            x@ == s@,
            p@ == prefix@,
            p.len() <= x.len(),
            i <= p.len(),
            forall|j: int| 0 <= j < i ==> x@[j] == p@[j],
        decreases p.len() - i,
    {
        if x[i] != p[i] {
            assert(s@.subrange(0, prefix@.len() as int)[i as int] != prefix@[i as int]);
            return false;
        }
        i += 1;
    }
    assert(s@.subrange(0, prefix@.len() as int) =~= prefix@);
    true
}

// ---------------------------------------------------------------------------
// Upper-casing, trimming, scanning
// ---------------------------------------------------------------------------

pub fn to_ascii_uppercase(s: &str) -> (r: String)
    ensures
        r@ == upper_seq(s@),
{
    let v = chars_of(s);
    let mut r = String::new();
    let mut i: usize = 0;
    while i < v.len()
        invariant
            v@ == s@,
            i <= v.len(),
            r@ == upper_seq(s@).subrange(0, i as int),
        decreases v.len() - i,
    {
        let c = char_ascii_upper(v[i]);
        push_char(&mut r, c);
        i += 1;
        assert(r@ =~= upper_seq(s@).subrange(0, i as int));
    }
    assert(r@ =~= upper_seq(s@));
    r
}

/// Number of leading whitespace characters of `s`.
pub open spec fn leading_ws(s: Seq<char>) -> nat
    decreases s.len(),
{
    if s.len() > 0 && is_whitespace(s[0]) {
        1 + leading_ws(s.drop_first())
    } else {
        0
    }
}

/// Number of trailing whitespace characters of `s`.
pub open spec fn trailing_ws(s: Seq<char>) -> nat
    decreases s.len(),
{
    if s.len() > 0 && is_whitespace(s.last()) {
        1 + trailing_ws(s.drop_last())
    } else {
        0
    }
}

pub open spec fn trim_start_seq(s: Seq<char>) -> Seq<char> {
    s.subrange(leading_ws(s) as int, s.len() as int)
}

pub open spec fn trim_end_seq(s: Seq<char>) -> Seq<char> {
    s.subrange(0, s.len() - trailing_ws(s))
}

/// What `str::trim` keeps: the string without leading and trailing whitespace.
pub open spec fn trim_seq(s: Seq<char>) -> Seq<char> {
    trim_end_seq(trim_start_seq(s))
}

proof fn lemma_leading_ws_bound(s: Seq<char>)
    ensures
        leading_ws(s) <= s.len(),
    decreases s.len(),
{
    if s.len() > 0 && is_whitespace(s[0]) {
        lemma_leading_ws_bound(s.drop_first());
    }
}

proof fn lemma_trailing_ws_bound(s: Seq<char>)
    ensures
        trailing_ws(s) <= s.len(),
    decreases s.len(),
{
    if s.len() > 0 && is_whitespace(s.last()) {
        lemma_trailing_ws_bound(s.drop_last());
    }
}

/// Scanning from `i` over whitespace reaches the end of the leading run.
proof fn lemma_leading_ws_from(s: Seq<char>, i: int)
    requires
        0 <= i <= s.len(),
        forall|j: int| 0 <= j < i ==> is_whitespace(#[trigger] s[j]),
    ensures
        leading_ws(s) == i + leading_ws(s.subrange(i, s.len() as int)),
    decreases i,
{
    if i > 0 {
        let t = s.drop_first();
        assert forall|j: int| 0 <= j < i - 1 implies is_whitespace(#[trigger] t[j]) by {
            assert(t[j] == s[j + 1]);
        }
        lemma_leading_ws_from(t, i - 1);
        assert(t.subrange(i - 1, t.len() as int) =~= s.subrange(i, s.len() as int));
        assert(is_whitespace(s[0]));
    } else {
        assert(s.subrange(0, s.len() as int) =~= s);
    }
}

proof fn lemma_trailing_ws_from(s: Seq<char>, k: int)
    requires
        0 <= k <= s.len(),
        forall|j: int| s.len() - k <= j < s.len() ==> is_whitespace(#[trigger] s[j]),
    ensures
        trailing_ws(s) == k + trailing_ws(s.subrange(0, s.len() - k)),
    decreases k,
{
    if k > 0 {
        let t = s.drop_last();
        assert forall|j: int| t.len() - (k - 1) <= j < t.len() implies is_whitespace(
            #[trigger] t[j],
        ) by {
            assert(t[j] == s[j]);
        }
        lemma_trailing_ws_from(t, k - 1);
        assert(t.subrange(0, t.len() - (k - 1)) =~= s.subrange(0, s.len() - k));
        assert(is_whitespace(s[s.len() - 1]));
    } else {
        assert(s.subrange(0, s.len() as int) =~= s);
    }
}

proof fn lemma_leading_stop(s: Seq<char>)
    ensures
        leading_ws(s) < s.len() ==> !is_whitespace(s[leading_ws(s) as int]),
    decreases s.len(),
{
    if s.len() > 0 && is_whitespace(s[0]) {
        let t = s.drop_first();
        lemma_leading_stop(t);
        if leading_ws(s) < s.len() {
            assert(s[leading_ws(s) as int] == t[leading_ws(t) as int]);
        }
    }
}

proof fn lemma_trailing_stop(s: Seq<char>)
    ensures
        trailing_ws(s) < s.len() ==> !is_whitespace(s[s.len() - trailing_ws(s) - 1]),
    decreases s.len(),
{
    if s.len() > 0 && is_whitespace(s.last()) {
        let t = s.drop_last();
        lemma_trailing_stop(t);
        if trailing_ws(s) < s.len() {
            assert(s[s.len() - trailing_ws(s) - 1] == t[t.len() - trailing_ws(t) - 1]);
        }
    }
}

/// A trimmed text neither starts nor ends with whitespace.
pub proof fn lemma_trim_ends(s: Seq<char>)
    ensures
        trim_seq(s).len() > 0 ==> !is_whitespace(trim_seq(s)[0]) && !is_whitespace(
            trim_seq(s).last(),
        ),
{
    lemma_leading_ws_bound(s);
    let u = trim_start_seq(s);
    lemma_trailing_ws_bound(u);
    lemma_leading_stop(s);
    lemma_trailing_stop(u);
    let t = trim_seq(s);
    if t.len() > 0 {
        assert(t[0] == u[0]);
        assert(u[0] == s[leading_ws(s) as int]);
        assert(t.last() == u[u.len() - trailing_ws(u) - 1]);
    }
}

/// Upper-casing keeps whether a character is whitespace, and upper-casing twice is once.
proof fn lemma_ascii_upper_char(c: char)
    ensures
        is_whitespace(ascii_upper(c)) == is_whitespace(c),
        ascii_upper(ascii_upper(c)) == ascii_upper(c),
{
}

/// Trimming an upper-cased trimmed text changes nothing, nor does upper-casing it again.
pub proof fn lemma_trim_upper_trim(s: Seq<char>)
    ensures
        trim_seq(upper_seq(trim_seq(s))) == upper_seq(trim_seq(s)),
        upper_seq(upper_seq(trim_seq(s))) == upper_seq(trim_seq(s)),
{
    let t = trim_seq(s);
    let w = upper_seq(t);
    lemma_trim_ends(s);
    assert forall|i: int| 0 <= i < w.len() implies #[trigger] upper_seq(w)[i] == w[i] by {
        lemma_ascii_upper_char(t[i]);
    }
    assert(upper_seq(w) =~= w);
    if w.len() > 0 {
        lemma_ascii_upper_char(t[0]);
        lemma_ascii_upper_char(t.last());
        assert(w.last() == ascii_upper(t.last()));
        assert(leading_ws(w) == 0);
        assert(trailing_ws(w) == 0);
    }
    assert(w.subrange(0, w.len() as int) =~= w);
    assert(trim_seq(w) =~= w);
}

/// `str::trim`.
pub fn trim(s: &str) -> (r: String)
    ensures
        r@ == trim_seq(s@),
{
    let v = chars_of(s);
    let n = v.len();
    let mut start: usize = 0;
    while start < n && char_is_whitespace(v[start])
        invariant
            v@ == s@,
            n == v.len(),
            start <= n,
            forall|j: int| 0 <= j < start ==> is_whitespace(#[trigger] v@[j]),
        decreases n - start,
    {
        start += 1;
    }
    proof {
        lemma_leading_ws_from(s@, start as int);
        let rest = s@.subrange(start as int, n as int);
        if start < n {
            assert(rest[0] == s@[start as int]);
        }
        assert(leading_ws(rest) == 0);
    }
    let ghost t = trim_start_seq(s@);
    assert(t =~= v@.subrange(start as int, n as int));
    let mut end: usize = n;
    while end > start && char_is_whitespace(v[end - 1])
        invariant
            v@ == s@,
            n == v.len(),
            start <= end <= n,
            t =~= v@.subrange(start as int, n as int),
            forall|j: int| end <= j < n ==> is_whitespace(#[trigger] v@[j]),
        decreases end - start,
    {
        end -= 1;
    }
    proof {
        let k = (n - end) as int;
        assert forall|j: int| t.len() - k <= j < t.len() implies is_whitespace(#[trigger] t[j]) by {
            assert(t[j] == v@[start + j]);
        }
        lemma_trailing_ws_from(t, k);
        let u = t.subrange(0, t.len() - k);
        if u.len() > 0 {
            assert(u.last() == v@[end - 1]);
        }
        assert(trailing_ws(u) == 0);
        assert(u =~= v@.subrange(start as int, end as int));
    }
    string_from_range(&v, start, end)
}

/// Index of the first occurrence of `c` in `s`.
pub open spec fn first_index_of(s: Seq<char>, c: char) -> Option<int>
    decreases s.len(),
{
    if s.len() == 0 {
        None
    } else if s[0] == c {
        Some(0)
    } else {
        match first_index_of(s.drop_first(), c) {
            Some(i) => Some(i + 1),
            None => None,
        }
    }
}

proof fn lemma_first_index_of_scan(s: Seq<char>, c: char, i: int)
    requires
        0 <= i <= s.len(),
        forall|j: int| 0 <= j < i ==> s[j] != c,
    ensures
        first_index_of(s, c) == (match first_index_of(s.subrange(i, s.len() as int), c) {
            Some(k) => Some(k + i),
            None => None::<int>,
        }),
    decreases i,
{
    if i == 0 {
        assert(s.subrange(0, s.len() as int) =~= s);
        match first_index_of(s, c) {
            Some(k) => {},
            None => {},
        }
    } else {
        let t = s.drop_first();
        assert forall|j: int| 0 <= j < i - 1 implies t[j] != c by {
            assert(t[j] == s[j + 1]);
        }
        lemma_first_index_of_scan(t, c, i - 1);
        assert(t.subrange(i - 1, t.len() as int) =~= s.subrange(i, s.len() as int));
        assert(s[0] != c);
    }
}

pub proof fn lemma_first_index_of_props(s: Seq<char>, c: char)
    ensures
        match first_index_of(s, c) {
            Some(k) => 0 <= k < s.len() && s[k] == c && forall|j: int| 0 <= j < k ==> s[j] != c,
            None => forall|j: int| 0 <= j < s.len() ==> s[j] != c,
        },
    decreases s.len(),
{
    if s.len() > 0 {
        let t = s.drop_first();
        lemma_first_index_of_props(t, c);
        match first_index_of(t, c) {
            Some(k) => {
                assert forall|j: int| 0 <= j < k + 1 && s[0] != c implies #[trigger] s[j] != c by {
                    if j > 0 {
                        assert(s[j] == t[j - 1]);
                    }
                }
            },
            None => {
                assert forall|j: int| 0 <= j < s.len() && s[0] != c implies #[trigger] s[j] != c by {
                    if j > 0 {
                        assert(s[j] == t[j - 1]);
                    }
                }
            },
        }
    }
}

/// Position of the first `c` in the characters `v`.
pub fn find_char(v: &Vec<char>, c: char) -> (r: Option<usize>)
    ensures
        match r {
            Some(i) => first_index_of(v@, c) == Some(i as int),
            None => first_index_of(v@, c) is None,
        },
{
    let mut i: usize = 0;
    while i < v.len()
        invariant
            i <= v.len(),
            forall|j: int| 0 <= j < i ==> v@[j] != c,
        decreases v.len() - i,
    {
        if v[i] == c {
            proof {
                lemma_first_index_of_scan(v@, c, i as int);
                let rest = v@.subrange(i as int, v@.len() as int);
                assert(rest[0] == c);
            }
            return Some(i);
        }
        i += 1;
    }
    proof {
        lemma_first_index_of_scan(v@, c, i as int);
        let rest = v@.subrange(i as int, v@.len() as int);
        assert(rest.len() == 0);
    }
    None
}

/// `s.split_once(c)`: the text before and after the first `c`.
pub open spec fn split_once_seq(s: Seq<char>, c: char) -> Option<(Seq<char>, Seq<char>)> {
    match first_index_of(s, c) {
        Some(k) => Some((s.subrange(0, k), s.subrange(k + 1, s.len() as int))),
        None => None,
    }
}

pub fn split_once(s: &str, c: char) -> (r: Option<(String, String)>)
    ensures
        match r {
            Some((a, b)) => split_once_seq(s@, c) == Some((a@, b@)),
            None => split_once_seq(s@, c) is None,
        },
{
    let v = chars_of(s);
    match find_char(&v, c) {
        Some(k) => {
            proof {
                lemma_first_index_of_props(v@, c);
            }
            let a = string_from_range(&v, 0, k);
            let b = string_from_range(&v, k + 1, v.len());
            Some((a, b))
        },
        None => None,
    }
}

pub fn chars_all_digits(v: &Vec<char>) -> (r: bool)
    ensures
        r == all_digits(v@),
{
    let mut i: usize = 0;
    while i < v.len()
        invariant
            i <= v.len(),
            forall|j: int| 0 <= j < i ==> is_ascii_digit(#[trigger] v@[j]),
        decreases v.len() - i,
    {
        if !char_is_digit(v[i]) {
            return false;
        }
        i += 1;
    }
    true
}

pub fn chars_all_alphanumeric(v: &Vec<char>) -> (r: bool)
    ensures
        r == all_alphanumeric(v@),
{
    let mut i: usize = 0;
    while i < v.len()
        invariant
            i <= v.len(),
            forall|j: int| 0 <= j < i ==> is_ascii_alphanumeric(#[trigger] v@[j]),
        decreases v.len() - i,
    {
        if !char_is_alphanumeric(v[i]) {
            return false;
        }
        i += 1;
    }
    true
}

pub fn str_contains_char(s: &str, c: char) -> (r: bool)
    ensures
        r == (first_index_of(s@, c) is Some),
{
    let v = chars_of(s);
    find_char(&v, c).is_some()
}

// ---------------------------------------------------------------------------
// Decimal rendering
// ---------------------------------------------------------------------------

pub open spec fn digit_char(d: nat) -> char {
    ((d + 48) as int) as char
}

/// Decimal digits of `n`, most significant first, without leading zeros.
pub open spec fn decimal(n: nat) -> Seq<char>
    decreases n,
{
    if n < 10 {
        seq![digit_char(n)]
    } else {
        decimal(n / 10).push(digit_char(n % 10))
    }
}

/// Decimal text of a signed integer, with a leading `-` when negative.
pub open spec fn signed_decimal(n: int) -> Seq<char> {
    if n < 0 {
        seq!['-'] + decimal((-n) as nat)
    } else {
        decimal(n as nat)
    }
}

fn digit(d: u64) -> (c: char)
    requires
        d < 10,
    ensures
        c == digit_char(d as nat),
{
    let b: u8 = d as u8;
    (b + 48) as char
}

/// The decimal text of `n`.
pub fn u64_to_decimal(n: u64) -> (s: String)
    ensures
        s@ == decimal(n as nat),
{
    let mut digits: Vec<char> = Vec::new();
    let mut m: u64 = n;
    while m >= 10
        invariant
            m <= n,
            decimal(n as nat) == decimal(m as nat) + digits@.reverse(),
        decreases m,
    {
        let d = digit(m % 10);
        proof {
            assert(decimal(m as nat) == decimal((m / 10) as nat).push(d));
            assert(decimal((m / 10) as nat) + digits@.push(d).reverse() =~= decimal(
                (m / 10) as nat,
            ).push(d) + digits@.reverse());
        }
        digits.push(d);
        m = m / 10;
    }
    digits.push(digit(m));
    assert(decimal(m as nat) =~= seq![digit_char(m as nat)]);
    let ghost rev = digits@.reverse();
    assert(rev =~= decimal(n as nat));
    let mut s = String::new();
    let mut i: usize = digits.len();
    while i > 0
        invariant
            i <= digits.len(),
            rev == digits@.reverse(),
            s@ == rev.subrange(0, digits.len() - i),
        decreases i,
    {
        i -= 1;
        push_char(&mut s, digits[i]);
        assert(s@ =~= rev.subrange(0, digits.len() - i));
    }
    assert(s@ =~= rev);
    s
}

/// The decimal text of a signed integer.
pub fn i64_to_decimal(n: i64) -> (s: String)
    ensures
        s@ == signed_decimal(n as int),
{
    if n < 0 {
        let magnitude: u64 = if n == i64::MIN {
            9_223_372_036_854_775_808u64
        } else {
            (-n) as u64
        };
        let mut s = String::new();
        push_char(&mut s, '-');
        let digits = u64_to_decimal(magnitude);
        append(&mut s, digits.as_str());
        s
    } else {
        u64_to_decimal(n as u64)
    }
}

// ---------------------------------------------------------------------------
// Lexicographic order
// ---------------------------------------------------------------------------

/// Lexicographic order by character value, which is the order `str` comparison gives.
pub open spec fn seq_lt(a: Seq<char>, b: Seq<char>) -> bool
    decreases a.len(),
{
    if a.len() == 0 {
        b.len() > 0
    } else if b.len() == 0 {
        false
    } else if a[0] != b[0] {
        a[0] < b[0]
    } else {
        seq_lt(a.drop_first(), b.drop_first())
    }
}

pub open spec fn seq_le(a: Seq<char>, b: Seq<char>) -> bool {
    a == b || seq_lt(a, b)
}

pub proof fn lemma_seq_lt_irreflexive(a: Seq<char>)
    ensures
        !seq_lt(a, a),
    decreases a.len(),
{
    if a.len() > 0 {
        lemma_seq_lt_irreflexive(a.drop_first());
    }
}

pub proof fn lemma_seq_lt_total(a: Seq<char>, b: Seq<char>)
    ensures
        a == b || seq_lt(a, b) || seq_lt(b, a),
    decreases a.len(),
{
    if a.len() > 0 && b.len() > 0 && a[0] == b[0] {
        lemma_seq_lt_total(a.drop_first(), b.drop_first());
        if a.drop_first() == b.drop_first() {
            assert(a =~= seq![a[0]] + a.drop_first());
            assert(b =~= seq![b[0]] + b.drop_first());
        }
    } else if a.len() == 0 && b.len() == 0 {
        assert(a =~= b);
    }
}

pub proof fn lemma_seq_lt_asymmetric(a: Seq<char>, b: Seq<char>)
    requires
        seq_lt(a, b),
    ensures
        !seq_lt(b, a),
    decreases a.len(),
{
    if a.len() > 0 && b.len() > 0 && a[0] == b[0] {
        lemma_seq_lt_asymmetric(a.drop_first(), b.drop_first());
    }
}

pub proof fn lemma_seq_lt_transitive(a: Seq<char>, b: Seq<char>, c: Seq<char>)
    requires
        seq_lt(a, b),
        seq_lt(b, c),
    ensures
        seq_lt(a, c),
    decreases a.len(),
{
    if a.len() > 0 && b.len() > 0 && c.len() > 0 && a[0] == b[0] && b[0] == c[0] {
        lemma_seq_lt_transitive(a.drop_first(), b.drop_first(), c.drop_first());
    }
}

pub proof fn lemma_seq_le_transitive(a: Seq<char>, b: Seq<char>, c: Seq<char>)
    requires
        seq_le(a, b),
        seq_le(b, c),
    ensures
        seq_le(a, c),
{
    if a != b && b != c {
        lemma_seq_lt_transitive(a, b, c);
    }
}

/// `a < b` in the order of `str` comparison.
pub fn text_less(a: &str, b: &str) -> (r: bool)
    ensures
        r == seq_lt(a@, b@),
{
    let x = chars_of(a);
    let y = chars_of(b);
    let mut i: usize = 0;
    assert(a@.subrange(0, a@.len() as int) =~= a@);
    assert(b@.subrange(0, b@.len() as int) =~= b@);
    while i < x.len() && i < y.len() && x[i] == y[i]
        invariant
            x@ == a@,
            y@ == b@,
            i <= x.len(),
            i <= y.len(),
            forall|j: int| 0 <= j < i ==> x@[j] == y@[j],
            seq_lt(a@, b@) == seq_lt(a@.subrange(i as int, a@.len() as int), b@.subrange(
                i as int,
                b@.len() as int,
            )),
        decreases x.len() - i,
    {
        proof {
            let sa = a@.subrange(i as int, a@.len() as int);
            let sb = b@.subrange(i as int, b@.len() as int);
            assert(sa.drop_first() =~= a@.subrange(i + 1, a@.len() as int));
            assert(sb.drop_first() =~= b@.subrange(i + 1, b@.len() as int));
            assert(sa[0] == sb[0]);
        }
        i += 1;
    }
    let ghost sa = a@.subrange(i as int, a@.len() as int);
    let ghost sb = b@.subrange(i as int, b@.len() as int);
    if i == x.len() {
        i < y.len()
    } else if i == y.len() {
        false
    } else {
        assert(sa[0] == x@[i as int] && sb[0] == y@[i as int]);
        x[i] < y[i]
    }
}

/// Whether `t` occurs in `s` as a contiguous run.
pub open spec fn contains_seq(s: Seq<char>, t: Seq<char>) -> bool {
    exists|i: int| 0 <= i && i + t.len() <= s.len() && #[trigger] s.subrange(i, i + t.len()) == t
}

/// `str::contains` with a text pattern.
pub fn str_contains(s: &str, t: &str) -> (r: bool)
    ensures
        r == contains_seq(s@, t@),
{
    let x = chars_of(s);
    let p = chars_of(t);
    if p.len() > x.len() {
        return false;
    }
    let last = x.len() - p.len();
    let mut i: usize = 0;
    while i <= last
        invariant
            x@ == s@,
            p@ == t@,
            last == x.len() - p.len(),
            p.len() <= x.len(),
            i <= last + 1,
            forall|k: int| 0 <= k < i ==> #[trigger] s@.subrange(k, k + t@.len()) != t@,
        decreases last + 1 - i,
    {
        let mut j: usize = 0;
        while j < p.len() && x[i + j] == p[j]
            invariant
                x@ == s@,
                p@ == t@,
                i <= last,
                last == x.len() - p.len(),
                j <= p.len(),
                forall|m: int| 0 <= m < j ==> x@[i + m] == p@[m],
            decreases p.len() - j,
        {
            j += 1;
        }
        if j == p.len() {
            assert(s@.subrange(i as int, i + t@.len()) =~= t@);
            return true;
        }
        assert(s@.subrange(i as int, i + t@.len())[j as int] != t@[j as int]);
        i += 1;
    }
    assert forall|k: int| 0 <= k && k + t@.len() <= s@.len() implies #[trigger] s@.subrange(
        k,
        k + t@.len(),
    ) != t@ by {
        assert(k < i);
    }
    false
}

// ---------------------------------------------------------------------------
// Searching sequences
// ---------------------------------------------------------------------------

/// The first position of `x` in `s`.
pub open spec fn position_of<T>(s: Seq<T>, x: T) -> Option<int>
    decreases s.len(),
{
    if s.len() == 0 {
        None
    } else if s.last() == x {
        match position_of(s.drop_last(), x) {
            Some(p) => Some(p),
            None => Some(s.len() - 1),
        }
    } else {
        position_of(s.drop_last(), x)
    }
}

pub proof fn lemma_position_of_scan<T>(s: Seq<T>, x: T, i: int)
    requires
        0 <= i <= s.len(),
        forall|m: int| 0 <= m < i ==> s[m] != x,
    ensures
        i < s.len() && s[i] == x ==> position_of(s, x) == Some(i),
        i == s.len() ==> position_of(s, x) is None,
    decreases s.len(),
{
    if s.len() > 0 {
        if i < s.len() && s[i] == x {
            if i < s.len() - 1 {
                lemma_position_of_scan(s.drop_last(), x, i);
            } else {
                lemma_position_of_scan(s.drop_last(), x, i);
            }
        } else if i == s.len() {
            lemma_position_of_scan(s.drop_last(), x, i - 1);
        }
    }
}

// ---------------------------------------------------------------------------
// Joining
// ---------------------------------------------------------------------------

/// The texts of a list of strings.
pub open spec fn text_views(v: Seq<String>) -> Seq<Seq<char>> {
    v.map_values(|s: String| s@)
}

/// The parts in order with `sep` between each two of them.
pub open spec fn join_with(parts: Seq<Seq<char>>, sep: Seq<char>) -> Seq<char>
    decreases parts.len(),
{
    if parts.len() == 0 {
        seq![]
    } else if parts.len() == 1 {
        parts[0]
    } else {
        join_with(parts.drop_last(), sep) + sep + parts.last()
    }
}

/// Joins the strings with `sep` between each two of them.
pub fn join_texts(parts: &Vec<String>, sep: &str) -> (r: String)
    ensures
        r@ == join_with(text_views(parts@), sep@),
{
    let mut s = String::new();
    let mut i: usize = 0;
    while i < parts.len()
        invariant
            i <= parts.len(),
            s@ == join_with(text_views(parts@.subrange(0, i as int)), sep@),
        decreases parts.len() - i,
    {
        let ghost before = text_views(parts@.subrange(0, i as int));
        if i > 0 {
            append(&mut s, sep);
        }
        append(&mut s, parts[i].as_str());
        proof {
            let after = text_views(parts@.subrange(0, i + 1));
            assert(after.drop_last() =~= before);
            assert(after.last() == parts@[i as int]@);
            if i == 0 {
                assert(before.len() == 0);
            }
        }
        i += 1;
    }
    assert(parts@.subrange(0, parts.len() as int) =~= parts@);
    s
}

} // verus!
