//! Character-level text model and the string operations the SEO rules use:
//! trimming, ASCII case folding, comparisons, searching, decimal formatting
//! and parsing, UTF-8 widths and ordering.
use vstd::prelude::*;

verus! {

/// `String::push` appends one character at the end of the string.
pub assume_specification[ String::push ](string: &mut String, ch: char)
    ensures
        final(string)@ == old(string)@.push(ch),
;

// ---------------------------------------------------------------------------
// Specifications
// ---------------------------------------------------------------------------

/// The characters that `char::is_whitespace` accepts: the Unicode
/// `White_Space` property.
pub open spec fn is_ws(c: char) -> bool {
    let u = c as u32;
    (0x09 <= u && u <= 0x0d) || u == 0x20 || u == 0x85 || u == 0xa0 || u == 0x1680 || (0x2000
        <= u && u <= 0x200a) || u == 0x2028 || u == 0x2029 || u == 0x202f || u == 0x205f || u
        == 0x3000
}

/// The text without its leading whitespace (`str::trim_start`).
pub open spec fn trim_start(s: Seq<char>) -> Seq<char>
    decreases s.len(),
{
    if s.len() > 0 && is_ws(s[0]) {
        trim_start(s.drop_first())
    } else {
        s
    }
}

/// The text without its trailing whitespace (`str::trim_end`).
pub open spec fn trim_end(s: Seq<char>) -> Seq<char>
    decreases s.len(),
{
    if s.len() > 0 && is_ws(s.last()) {
        trim_end(s.drop_last())
    } else {
        s
    }
}

/// The text without leading and trailing whitespace (`str::trim`).
pub open spec fn trim(s: Seq<char>) -> Seq<char> {
    trim_end(trim_start(s))
}

/// ASCII lower-casing of one character (`char::to_ascii_lowercase`).
pub open spec fn lower_char(c: char) -> char {
    if 'A' <= c && c <= 'Z' {
        ((c as u32) + 32) as char
    } else {
        c
    }
}

/// ASCII lower-casing of a text (`str::to_ascii_lowercase`).
pub open spec fn lower(s: Seq<char>) -> Seq<char> {
    s.map_values(|c: char| lower_char(c))
}

/// Case-insensitive ASCII equality (`str::eq_ignore_ascii_case`).
pub open spec fn eq_ignore_case(a: Seq<char>, b: Seq<char>) -> bool {
    lower(a) == lower(b)
}

/// `needle` is a prefix of `s`.
pub open spec fn starts_with(s: Seq<char>, needle: Seq<char>) -> bool {
    needle.len() <= s.len() && s.subrange(0, needle.len() as int) == needle
}

/// `needle` is a suffix of `s`.
pub open spec fn ends_with(s: Seq<char>, needle: Seq<char>) -> bool {
    needle.len() <= s.len() && s.subrange(s.len() - needle.len(), s.len() as int) == needle
}

/// `needle` occurs in `s` at position `i`.
pub open spec fn occurs_at(s: Seq<char>, needle: Seq<char>, i: int) -> bool {
    0 <= i && i + needle.len() <= s.len() && s.subrange(i, i + needle.len()) == needle
}

/// `needle` occurs somewhere in `s` (`str::contains`).
pub open spec fn contains(s: Seq<char>, needle: Seq<char>) -> bool {
    exists|i: int| occurs_at(s, needle, i)
}

/// `c` occurs in `s`.
pub open spec fn has_char(s: Seq<char>, c: char) -> bool {
    exists|i: int| 0 <= i < s.len() && s[i] == c
}

/// `s` contains a whitespace character.
pub open spec fn has_ws(s: Seq<char>) -> bool {
    exists|i: int| 0 <= i < s.len() && is_ws(s[i])
}

/// The decimal digit character of `d < 10`.
pub open spec fn digit_char(d: nat) -> char {
    (('0' as u32) + d) as char
}

/// Decimal rendering of a natural number, as `Display` writes it.
pub open spec fn dec_nat(n: nat) -> Seq<char>
    decreases n,
{
    if n < 10 {
        seq![digit_char(n)]
    } else {
        dec_nat(n / 10).push(digit_char(n % 10))
    }
}

/// Decimal rendering of an integer, as `Display` writes it.
pub open spec fn dec_int(i: int) -> Seq<char> {
    if i < 0 {
        seq!['-'] + dec_nat((-i) as nat)
    } else {
        dec_nat(i as nat)
    }
}

/// `c` is an ASCII decimal digit.
pub open spec fn is_digit(c: char) -> bool {
    '0' <= c && c <= '9'
}

/// The value of a run of decimal digits.
pub open spec fn digits_value(s: Seq<char>) -> nat
    decreases s.len(),
{
    if s.len() == 0 {
        0
    } else {
        digits_value(s.drop_last()) * 10 + ((s.last() as u32) - ('0' as u32)) as nat
    }
}

/// `s` is a non-empty run of decimal digits.
pub open spec fn all_digits(s: Seq<char>) -> bool {
    s.len() > 0 && forall|i: int| 0 <= i < s.len() ==> is_digit(#[trigger] s[i])
}

/// What `str::parse::<i32>` gives: an optional sign followed by at least one
/// digit, within the range of `i32`.
pub open spec fn parse_i32(s: Seq<char>) -> Option<i32> {
    let neg = s.len() > 0 && s[0] == '-';
    let digits = if s.len() > 0 && (s[0] == '-' || s[0] == '+') {
        s.drop_first()
    } else {
        s
    };
    if !all_digits(digits) {
        None
    } else {
        let v: int = if neg {
            -(digits_value(digits) as int)
        } else {
            digits_value(digits) as int
        };
        if i32::MIN <= v && v <= i32::MAX {
            Some(v as i32)
        } else {
            None
        }
    }
}

/// Number of bytes of the UTF-8 encoding of `c` (`char::len_utf8`).
pub open spec fn utf8_width(c: char) -> nat {
    let u = c as u32;
    if u < 0x80 {
        1
    } else if u < 0x800 {
        2
    } else if u < 0x10000 {
        3
    } else {
        4
    }
}

/// Number of bytes of the UTF-8 encoding of a text (`str::len`).
pub open spec fn byte_len(s: Seq<char>) -> nat
    decreases s.len(),
{
    if s.len() == 0 {
        0
    } else {
        byte_len(s.drop_last()) + utf8_width(s.last())
    }
}

/// Strict lexicographic order of texts by code point, which is the order of
/// `String` (UTF-8 byte order and code point order agree).
pub open spec fn text_lt(a: Seq<char>, b: Seq<char>) -> bool
    decreases a.len(),
{
    if a.len() == 0 {
        b.len() > 0
    } else if b.len() == 0 {
        false
    } else if a[0] != b[0] {
        a[0] < b[0]
    } else {
        text_lt(a.drop_first(), b.drop_first())
    }
}

/// Non-strict lexicographic order of texts.
pub open spec fn text_le(a: Seq<char>, b: Seq<char>) -> bool {
    text_lt(a, b) || a == b
}

/// Concatenation of texts with a separator between consecutive items
/// (`[String]::join`).
pub open spec fn join(items: Seq<Seq<char>>, sep: Seq<char>) -> Seq<char>
    decreases items.len(),
{
    if items.len() == 0 {
        Seq::empty()
    } else if items.len() == 1 {
        items[0]
    } else {
        join(items.drop_last(), sep) + sep + items.last()
    }
}

/// The views of a sequence of strings.
pub open spec fn views(v: Seq<String>) -> Seq<Seq<char>> {
    v.map_values(|s: String| s@)
}

// ---------------------------------------------------------------------------
// Lemmas
// ---------------------------------------------------------------------------

/// Dropping leading whitespace one step at a time.
pub proof fn lemma_trim_start_skip(s: Seq<char>, i: int)
    requires
        0 <= i < s.len(),
        is_ws(s[i]),
    ensures
        trim_start(s.skip(i)) == trim_start(s.skip(i + 1)),
{
    let t = s.skip(i);
    assert(t.drop_first() =~= s.skip(i + 1));
}

/// Dropping trailing whitespace one step at a time.
pub proof fn lemma_trim_end_take(s: Seq<char>, j: int)
    requires
        0 < j <= s.len(),
        is_ws(s[j - 1]),
    ensures
        trim_end(s.take(j)) == trim_end(s.take(j - 1)),
{
    let t = s.take(j);
    assert(t.drop_last() =~= s.take(j - 1));
}

/// `trim` leaves the text unchanged at its bounds.
pub proof fn lemma_trim_bounds(s: Seq<char>)
    ensures
        trim(s).len() == 0 || (!is_ws(trim(s)[0]) && !is_ws(trim(s).last())),
    decreases s.len(),
{
    lemma_trim_start_bounds(s);
    lemma_trim_end_bounds(trim_start(s));
}

proof fn lemma_trim_start_bounds(s: Seq<char>)
    ensures
        trim_start(s).len() == 0 || !is_ws(trim_start(s)[0]),
        trim_start(s).len() <= s.len(),
    decreases s.len(),
{
    if s.len() > 0 && is_ws(s[0]) {
        lemma_trim_start_bounds(s.drop_first());
    }
}

proof fn lemma_trim_end_bounds(s: Seq<char>)
    requires
        s.len() == 0 || !is_ws(s[0]),
    ensures
        trim_end(s).len() == 0 || (!is_ws(trim_end(s)[0]) && !is_ws(trim_end(s).last())),
        trim_end(s).len() <= s.len(),
        forall|k: int| 0 <= k < trim_end(s).len() ==> trim_end(s)[k] == s[k],
    decreases s.len(),
{
    if s.len() > 0 && is_ws(s.last()) {
        lemma_trim_end_bounds(s.drop_last());
        assert forall|k: int| 0 <= k < trim_end(s).len() implies trim_end(s)[k] == s[k] by {
            assert(s.drop_last()[k] == s[k]);
        }
    }
}

/// Trimming an already trimmed text does nothing.
pub proof fn lemma_trim_idempotent(s: Seq<char>)
    ensures
        trim(trim(s)) == trim(s),
{
    lemma_trim_bounds(s);
    let t = trim(s);
    if t.len() > 0 {
        assert(trim_start(t) == t);
        assert(trim_end(t) == t);
    } else {
        assert(trim_start(t) =~= t);
    }
}

/// Lower-casing twice is lower-casing once.
pub proof fn lemma_lower_idempotent(s: Seq<char>)
    ensures
        lower(lower(s)) == lower(s),
{
    assert(lower(lower(s)) =~= lower(s));
}

/// `text_lt` is irreflexive.
pub proof fn lemma_text_lt_irreflexive(a: Seq<char>)
    ensures
        !text_lt(a, a),
    decreases a.len(),
{
    if a.len() > 0 {
        lemma_text_lt_irreflexive(a.drop_first());
    }
}

/// `text_lt` is transitive.
pub proof fn lemma_text_lt_transitive(a: Seq<char>, b: Seq<char>, c: Seq<char>)
    requires
        text_lt(a, b),
        text_lt(b, c),
    ensures
        text_lt(a, c),
    decreases a.len(),
{
    if a.len() > 0 && b.len() > 0 && c.len() > 0 {
        if a[0] == b[0] && b[0] == c[0] {
            lemma_text_lt_transitive(a.drop_first(), b.drop_first(), c.drop_first());
        }
    }
}

/// Two different texts are ordered one way or the other.
pub proof fn lemma_text_lt_total(a: Seq<char>, b: Seq<char>)
    ensures
        a == b || text_lt(a, b) || text_lt(b, a),
    decreases a.len(),
{
    if a.len() > 0 && b.len() > 0 && a[0] == b[0] {
        lemma_text_lt_total(a.drop_first(), b.drop_first());
        if a.drop_first() == b.drop_first() {
            assert(a =~= seq![a[0]] + a.drop_first());
            assert(b =~= seq![b[0]] + b.drop_first());
        }
    } else if a.len() == 0 && b.len() == 0 {
        assert(a =~= b);
    }
}

/// `text_lt` is asymmetric.
pub proof fn lemma_text_lt_asymmetric(a: Seq<char>, b: Seq<char>)
    requires
        text_lt(a, b),
    ensures
        !text_lt(b, a),
{
    if text_lt(b, a) {
        lemma_text_lt_transitive(a, b, a);
        lemma_text_lt_irreflexive(a);
    }
}

// ---------------------------------------------------------------------------
// Executable operations
// ---------------------------------------------------------------------------

/// Whitespace test on one character (`char::is_whitespace`).
pub fn char_is_ws(c: char) -> (r: bool)
    ensures
        r == is_ws(c),
{
    let u = c as u32;
    (0x09 <= u && u <= 0x0d) || u == 0x20 || u == 0x85 || u == 0xa0 || u == 0x1680 || (0x2000
        <= u && u <= 0x200a) || u == 0x2028 || u == 0x2029 || u == 0x202f || u == 0x205f || u
        == 0x3000
}

/// ASCII lower-casing of one character.
pub fn char_lower(c: char) -> (r: char)
    ensures
        r == lower_char(c),
{
    if 'A' <= c && c <= 'Z' {
        let u = ((c as u32) + 32) as u8;
        u as char
    } else {
        c
    }
}

/// The characters of a string.
pub fn chars_of(s: &str) -> (v: Vec<char>)
    ensures
        v@ == s@,
{
    let n = s.unicode_len();
    let mut v: Vec<char> = Vec::new();
    let mut i: usize = 0;
    while i < n
        invariant
            n == s@.len(),
            i <= n,
            v@ == s@.take(i as int),
        decreases n - i,
    {
        let c = s.get_char(i);
        v.push(c);
        i = i + 1;
        assert(v@ =~= s@.take(i as int));
    }
    assert(v@ =~= s@);
    v
}

/// A string made of a range of characters.
pub fn string_from_range(v: &Vec<char>, lo: usize, hi: usize) -> (s: String)
    requires
        lo <= hi <= v.len(),
    ensures
        s@ == v@.subrange(lo as int, hi as int),
{
    let mut s = String::new();
    let mut i = lo;
    while i < hi
        invariant
            lo <= i <= hi <= v.len(),
            s@ == v@.subrange(lo as int, i as int),
        decreases hi - i,
    {
        s.push(v[i]);
        i = i + 1;
        assert(s@ =~= v@.subrange(lo as int, i as int));
    }
    s
}

/// Appends a string slice at the end of a string (`String::push_str`).
pub fn append(s: &mut String, t: &str)
    ensures
        final(s)@ == old(s)@ + t@,
{
    let chars = chars_of(t);
    let mut i: usize = 0;
    while i < chars.len()
        invariant
            i <= chars.len(),
            chars@ == t@,
            s@ == old(s)@ + t@.take(i as int),
        decreases chars.len() - i,
    {
        s.push(chars[i]);
        i = i + 1;
        assert(s@ =~= old(s)@ + t@.take(i as int));
    }
    assert(t@.take(chars.len() as int) =~= t@);
}

/// A string made of the given characters.
pub fn string_from_chars(v: &Vec<char>) -> (s: String)
    ensures
        s@ == v@,
{
    let s = string_from_range(v, 0, v.len());
    assert(v@.subrange(0, v@.len() as int) =~= v@);
    s
}

/// An owned copy of a string slice.
pub fn owned(s: &str) -> (r: String)
    ensures
        r@ == s@,
{
    s.to_owned()
}

/// The bounds of the trimmed part of a character sequence.
pub fn trim_bounds(v: &Vec<char>) -> (r: (usize, usize))
    ensures
        r.0 <= r.1 <= v.len(),
        v@.subrange(r.0 as int, r.1 as int) == trim(v@),
{
    let n = v.len();
    let mut i: usize = 0;
    assert(v@.skip(0) =~= v@);
    while i < n && char_is_ws(v[i])
        invariant
            n == v.len(),
            i <= n,
            trim_start(v@) == trim_start(v@.skip(i as int)),
        decreases n - i,
    {
        proof {
            lemma_trim_start_skip(v@, i as int);
        }
        i = i + 1;
    }
    proof {
        let t = v@.skip(i as int);
        if t.len() > 0 {
            assert(t[0] == v@[i as int]);
        }
        assert(trim_start(t) == t);
    }
    let ghost ts = v@.skip(i as int);
    let mut j: usize = n;
    assert(ts.take((j - i) as int) =~= ts);
    while j > i && char_is_ws(v[j - 1])
        invariant
            n == v.len(),
            i <= j <= n,
            ts == v@.skip(i as int),
            trim_end(ts) == trim_end(ts.take((j - i) as int)),
        decreases j,
    {
        proof {
            assert(ts[(j - i - 1) as int] == v@[j - 1]);
            lemma_trim_end_take(ts, (j - i) as int);
        }
        j = j - 1;
    }
    proof {
        let u = ts.take((j - i) as int);
        if u.len() > 0 {
            assert(u.last() == v@[j - 1]);
        }
        assert(trim_end(u) == u);
        assert(u =~= v@.subrange(i as int, j as int));
    }
    (i, j)
}

/// `str::trim`, as an owned string.
pub fn trim_str(s: &str) -> (r: String)
    ensures
        r@ == trim(s@),
{
    let v = chars_of(s);
    let (i, j) = trim_bounds(&v);
    string_from_range(&v, i, j)
}

/// `str::trim().is_empty()`: the text is blank.
pub fn is_blank(s: &str) -> (r: bool)
    ensures
        r == (trim(s@).len() == 0),
{
    let v = chars_of(s);
    let (i, j) = trim_bounds(&v);
    i == j
}

/// ASCII lower-casing of a character sequence.
pub fn lower_chars(v: &Vec<char>) -> (r: Vec<char>)
    ensures
        r@ == lower(v@),
{
    let mut r: Vec<char> = Vec::new();
    let mut i: usize = 0;
    while i < v.len()
        invariant
            i <= v.len(),
            r@ == lower(v@.take(i as int)),
        decreases v.len() - i,
    {
        let c = char_lower(v[i]);
        r.push(c);
        i = i + 1;
        assert(r@ =~= lower(v@.take(i as int)));
    }
    assert(v@.take(v.len() as int) =~= v@);
    r
}

/// `str::to_ascii_lowercase`.
pub fn lower_str(s: &str) -> (r: String)
    ensures
        r@ == lower(s@),
{
    let v = chars_of(s);
    let l = lower_chars(&v);
    string_from_chars(&l)
}

/// `s.trim().to_ascii_lowercase()`.
pub fn trim_lower(s: &str) -> (r: String)
    ensures
        r@ == lower(trim(s@)),
{
    let t = trim_str(s);
    lower_str(t.as_str())
}

/// Equality of two character sequences.
pub fn chars_eq(a: &Vec<char>, b: &Vec<char>) -> (r: bool)
    ensures
        r == (a@ == b@),
{
    if a.len() != b.len() {
        return false;
    }
    let mut i: usize = 0;
    while i < a.len()
        invariant
            a.len() == b.len(),
            i <= a.len(),
            forall|k: int| 0 <= k < i ==> a@[k] == b@[k],
        decreases a.len() - i,
    {
        if a[i] != b[i] {
            return false;
        }
        i = i + 1;
    }
    assert(a@ =~= b@);
    true
}

/// Equality of two strings by content.
pub fn str_eq(a: &str, b: &str) -> (r: bool)
    ensures
        r == (a@ == b@),
{
    let va = chars_of(a);
    let vb = chars_of(b);
    chars_eq(&va, &vb)
}

/// `str::eq_ignore_ascii_case`.
pub fn str_eq_ignore_case(a: &str, b: &str) -> (r: bool)
    ensures
        r == eq_ignore_case(a@, b@),
{
    let va = lower_chars(&chars_of(a));
    let vb = lower_chars(&chars_of(b));
    chars_eq(&va, &vb)
}

/// `needle` occurs in `v` at position `i`.
pub fn chars_occur_at(v: &Vec<char>, needle: &Vec<char>, i: usize) -> (r: bool)
    ensures
        r == occurs_at(v@, needle@, i as int),
{
    if i > v.len() || needle.len() > v.len() - i {
        return false;
    }
    let mut k: usize = 0;
    while k < needle.len()
        invariant
            i + needle.len() <= v.len(),
            k <= needle.len(),
            forall|m: int| 0 <= m < k ==> v@[i + m] == needle@[m],
        decreases needle.len() - k,
    {
        if v[i + k] != needle[k] {
            assert(v@.subrange(i as int, i + needle.len())[k as int] != needle@[k as int]);
            return false;
        }
        k = k + 1;
    }
    assert(v@.subrange(i as int, i + needle.len()) =~= needle@);
    true
}

/// `str::starts_with`.
pub fn str_starts_with(s: &str, needle: &str) -> (r: bool)
    ensures
        r == starts_with(s@, needle@),
{
    let v = chars_of(s);
    let n = chars_of(needle);
    chars_occur_at(&v, &n, 0)
}

/// `str::ends_with`.
pub fn str_ends_with(s: &str, needle: &str) -> (r: bool)
    ensures
        r == ends_with(s@, needle@),
{
    let v = chars_of(s);
    let n = chars_of(needle);
    if n.len() > v.len() {
        return false;
    }
    chars_occur_at(&v, &n, v.len() - n.len())
}

/// `str::contains` on character sequences.
pub fn chars_contains(v: &Vec<char>, needle: &Vec<char>) -> (r: bool)
    ensures
        r == contains(v@, needle@),
{
    if needle.len() > v.len() {
        assert forall|i: int| !occurs_at(v@, needle@, i) by {}
        return false;
    }
    let last = v.len() - needle.len();
    let mut i: usize = 0;
    loop
        invariant
            last == v.len() - needle.len(),
            i <= last,
            forall|k: int| 0 <= k < i ==> !occurs_at(v@, needle@, k),
        ensures
            forall|k: int| 0 <= k <= last ==> !occurs_at(v@, needle@, k),
        decreases last - i,
    {
        if chars_occur_at(v, needle, i) {
            return true;
        }
        if i == last {
            break;
        }
        i = i + 1;
    }
    assert forall|k: int| !occurs_at(v@, needle@, k) by {
        if 0 <= k && k <= last {
        }
    }
    false
}

/// `str::contains`.
pub fn str_contains(s: &str, needle: &str) -> (r: bool)
    ensures
        r == contains(s@, needle@),
{
    let v = chars_of(s);
    let n = chars_of(needle);
    chars_contains(&v, &n)
}

/// `s` contains whitespace.
pub fn chars_have_ws(v: &Vec<char>) -> (r: bool)
    ensures
        r == has_ws(v@),
{
    let mut i: usize = 0;
    while i < v.len()
        invariant
            i <= v.len(),
            forall|k: int| 0 <= k < i ==> !is_ws(v@[k]),
        decreases v.len() - i,
    {
        if char_is_ws(v[i]) {
            return true;
        }
        i = i + 1;
    }
    false
}

/// Appends the decimal rendering of a natural number.
pub fn push_dec_u64(s: &mut String, n: u64)
    ensures
        final(s)@ == old(s)@ + dec_nat(n as nat),
    decreases n,
{
    if n < 10 {
        let c = (('0' as u32) + (n as u32)) as u8 as char;
        s.push(c);
        assert(final(s)@ =~= old(s)@ + dec_nat(n as nat));
    } else {
        push_dec_u64(s, n / 10);
        let d = n % 10;
        let c = (('0' as u32) + (d as u32)) as u8 as char;
        s.push(c);
        assert(final(s)@ =~= old(s)@ + dec_nat(n as nat));
    }
}

/// Appends the decimal rendering of an integer.
pub fn push_dec_i64(s: &mut String, i: i64)
    requires
        i > i64::MIN,
    ensures
        final(s)@ == old(s)@ + dec_int(i as int),
{
    if i < 0 {
        s.push('-');
        push_dec_u64(s, (-i) as u64);
        assert(final(s)@ =~= old(s)@ + dec_int(i as int));
    } else {
        push_dec_u64(s, i as u64);
    }
}

/// The decimal rendering of an `i32` (`i32::to_string`).
pub fn i32_to_string(i: i32) -> (r: String)
    ensures
        r@ == dec_int(i as int),
{
    let mut s = String::new();
    push_dec_i64(&mut s, i as i64);
    assert(s@ =~= dec_int(i as int));
    s
}

/// The decimal rendering of a `usize` (`usize::to_string`).
pub fn usize_to_string(n: usize) -> (r: String)
    ensures
        r@ == dec_nat(n as nat),
{
    let mut s = String::new();
    push_dec_u64(&mut s, n as u64);
    assert(s@ =~= dec_nat(n as nat));
    s
}

proof fn lemma_digits_value_push(s: Seq<char>, c: char)
    ensures
        digits_value(s.push(c)) == digits_value(s) * 10 + ((c as u32) - ('0' as u32)) as nat,
{
    assert(s.push(c).drop_last() =~= s);
}

/// `str::parse::<i32>` on a character sequence.
pub fn parse_i32_chars(v: &Vec<char>) -> (r: Option<i32>)
    ensures
        r == parse_i32(v@),
{
    let n = v.len();
    let neg = n > 0 && v[0] == '-';
    let start: usize = if n > 0 && (v[0] == '-' || v[0] == '+') {
        1
    } else {
        0
    };
    let ghost digits = if v@.len() > 0 && (v@[0] == '-' || v@[0] == '+') {
        v@.drop_first()
    } else {
        v@
    };
    assert(digits =~= v@.skip(start as int));
    if start >= n {
        return None;
    }
    let limit: u64 = 0x8000_0000;
    let mut acc: u64 = 0;
    let mut i: usize = start;
    assert(v@.subrange(start as int, start as int) =~= Seq::<char>::empty());
    while i < n
        invariant
            n == v.len(),
            start < n,
            start <= i <= n,
            digits == v@.skip(start as int),
            digits == (if v@.len() > 0 && (v@[0] == '-' || v@[0] == '+') {
                v@.drop_first()
            } else {
                v@
            }),
            limit == 0x8000_0000,
            acc <= limit,
            acc == digits_value(v@.subrange(start as int, i as int)),
            forall|k: int| start <= k < i ==> is_digit(v@[k]),
        decreases n - i,
    {
        let c = v[i];
        if !('0' <= c && c <= '9') {
            assert(digits[i - start] == c);
            assert(!is_digit(digits[i - start]));
            return None;
        }
        let d = (c as u32 - '0' as u32) as u64;
        proof {
            lemma_digits_value_push(v@.subrange(start as int, i as int), c);
            assert(v@.subrange(start as int, i as int).push(c) =~= v@.subrange(
                start as int,
                i + 1,
            ));
        }
        if acc > (limit - d) / 10 {
            // The value already exceeds what an i32 can hold; the rest of
            // the digits only make it larger.
            let ghost partial = v@.subrange(start as int, i + 1);
            proof {
                assert(digits_value(partial) > limit) by (nonlinear_arith)
                    requires
                        digits_value(partial) == acc * 10 + d,
                        acc > (limit - d) / 10,
                        d <= 9,
                        limit == 0x8000_0000,
                ;
                assert(partial =~= digits.take((i + 1 - start) as int));
                lemma_digits_value_monotone(digits, (i + 1 - start) as int);
                assert(digits_value(digits) > limit);
            }
            // Any non-digit later also gives None.
            return None;
        }
        acc = acc * 10 + d;
        i = i + 1;
    }
    assert(v@.subrange(start as int, n as int) =~= digits);
    if neg {
        if acc <= limit {
            let r = (0 - (acc as i64)) as i32;
            Some(r)
        } else {
            None
        }
    } else {
        if acc < limit {
            Some(acc as i32)
        } else {
            None
        }
    }
}

/// A longer run of digits is worth at least as much as its prefix.
proof fn lemma_digits_value_monotone(s: Seq<char>, k: int)
    requires
        0 <= k <= s.len(),
    ensures
        digits_value(s) >= digits_value(s.take(k)),
    decreases s.len(),
{
    if k < s.len() {
        assert(s.drop_last().take(k) =~= s.take(k));
        lemma_digits_value_monotone(s.drop_last(), k);
    } else {
        assert(s.take(k) =~= s);
    }
}

/// `str::parse::<i32>`.
pub fn parse_i32_str(s: &str) -> (r: Option<i32>)
    ensures
        r == parse_i32(s@),
{
    let v = chars_of(s);
    parse_i32_chars(&v)
}


/// The views of strings grown by one string.
pub proof fn lemma_views_push(v: Seq<String>, x: String)
    ensures
        views(v.push(x)) == views(v).push(x@),
{
    assert(views(v.push(x)) =~= views(v).push(x@));
}

/// The views of a prefix grown by the next string.
pub proof fn lemma_views_take_next(v: Seq<String>, i: int)
    requires
        0 <= i < v.len(),
    ensures
        views(v.take(i + 1)) == views(v.take(i)).push(v[i]@),
        views(v.take(i + 1)).last() == v[i]@,
        views(v.take(i + 1)).drop_last() == views(v.take(i)),
{
    assert(v.take(i + 1) =~= v.take(i).push(v[i]));
    lemma_views_push(v.take(i), v[i]);
    assert(views(v.take(i)).push(v[i]@).drop_last() =~= views(v.take(i)));
}

/// The view of an optional string.
pub open spec fn opt_view(o: Option<String>) -> Option<Seq<char>> {
    match o {
        Some(s) => Some(s@),
        None => None,
    }
}

/// Texts in strictly ascending order: sorted and without repeats.
pub open spec fn strictly_sorted(s: Seq<Seq<char>>) -> bool {
    forall|i: int, j: int| 0 <= i < j < s.len() ==> text_lt(#[trigger] s[i], #[trigger] s[j])
}

/// `text_lt` on character vectors.
pub fn chars_lt(a: &Vec<char>, b: &Vec<char>) -> (r: bool)
    ensures
        r == text_lt(a@, b@),
{
    let mut i: usize = 0;
    assert(a@.skip(0) =~= a@);
    assert(b@.skip(0) =~= b@);
    while i < a.len() && i < b.len()
        invariant
            i <= a.len(),
            i <= b.len(),
            a@.take(i as int) == b@.take(i as int),
            text_lt(a@, b@) == text_lt(a@.skip(i as int), b@.skip(i as int)),
        decreases a.len() - i,
    {
        if a[i] != b[i] {
            return a[i] < b[i];
        }
        proof {
            assert(a@.skip(i as int).drop_first() =~= a@.skip(i as int + 1));
            assert(b@.skip(i as int).drop_first() =~= b@.skip(i as int + 1));
            assert(a@.take(i as int + 1) =~= a@.take(i as int).push(a@[i as int]));
            assert(b@.take(i as int + 1) =~= b@.take(i as int).push(b@[i as int]));
        }
        i = i + 1;
    }
    i == a.len() && i < b.len()
}

/// `text_lt` on strings (the order of `str`).
pub fn str_lt(a: &str, b: &str) -> (r: bool)
    ensures
        r == text_lt(a@, b@),
{
    let va = chars_of(a);
    let vb = chars_of(b);
    chars_lt(&va, &vb)
}

/// The string without its first `n` characters.
pub fn skip_str(s: &str, n: usize) -> (r: String)
    requires
        n <= s@.len(),
    ensures
        r@ == s@.skip(n as int),
{
    let v = chars_of(s);
    let r = string_from_range(&v, n, v.len());
    assert(r@ =~= s@.skip(n as int));
    r
}

/// A copy of an optional string.
pub fn copy_opt(o: &Option<String>) -> (r: Option<String>)
    ensures
        opt_view(r) == opt_view(*o),
        r == *o,
{
    match o {
        Some(s) => Some(s.clone()),
        None => None,
    }
}

/// A copy of a vector of strings.
pub fn copy_strings(v: &Vec<String>) -> (r: Vec<String>)
    ensures
        r@ == v@,
        views(r@) == views(v@),
{
    let mut r: Vec<String> = Vec::new();
    let mut i: usize = 0;
    while i < v.len()
        invariant
            i <= v.len(),
            r@ == v@.take(i as int),
        decreases v.len() - i,
    {
        r.push(v[i].clone());
        i = i + 1;
        assert(r@ =~= v@.take(i as int));
    }
    assert(r@ =~= v@);
    r
}

/// Insertion of a text into a strictly ascending sequence of texts: the
/// text goes after every smaller one; a text already present is not added.
pub open spec fn sorted_insert(s: Seq<Seq<char>>, x: Seq<char>) -> Seq<Seq<char>>
    decreases s.len(),
{
    if s.len() == 0 {
        seq![x]
    } else if text_lt(s.last(), x) {
        s.push(x)
    } else if s.last() == x {
        s
    } else {
        sorted_insert(s.drop_last(), x).push(s.last())
    }
}

/// The distinct texts of a sequence in strictly ascending order (what a
/// sort followed by a dedup gives).
pub open spec fn sorted_unique(s: Seq<Seq<char>>) -> Seq<Seq<char>>
    decreases s.len(),
{
    if s.len() == 0 {
        Seq::empty()
    } else {
        sorted_insert(sorted_unique(s.drop_last()), s.last())
    }
}

/// The shape of an insertion at the position `j` that separates the
/// smaller texts from the others.
pub proof fn lemma_sorted_insert_at(s: Seq<Seq<char>>, x: Seq<char>, j: int)
    requires
        strictly_sorted(s),
        0 <= j <= s.len(),
        forall|k: int| 0 <= k < j ==> text_lt(#[trigger] s[k], x),
        forall|k: int| j <= k < s.len() ==> !text_lt(#[trigger] s[k], x),
    ensures
        j < s.len() && s[j] == x ==> sorted_insert(s, x) == s,
        !(j < s.len() && s[j] == x) ==> sorted_insert(s, x) == s.take(j).push(x) + s.skip(j),
    decreases s.len(),
{
    if s.len() == 0 {
        assert(s.take(j).push(x) + s.skip(j) =~= seq![x]);
    } else if text_lt(s.last(), x) {
        assert(j == s.len());
        assert(s.take(j).push(x) + s.skip(j) =~= s.push(x));
    } else if s.last() == x {
        if j < s.len() - 1 {
            assert(text_lt(s[j], s[s.len() - 1]));
            lemma_text_lt_total(s[j], x);
        }
        assert(j == s.len() - 1);
    } else {
        let t = s.drop_last();
        assert(j < s.len());
        assert(strictly_sorted(t));
        lemma_sorted_insert_at(t, x, j);
        if j < t.len() && t[j] == x {
        } else {
            assert(t.take(j).push(x) + t.skip(j) + seq![s.last()] =~= s.take(j).push(x) + s.skip(
                j,
            ));
            assert((t.take(j).push(x) + t.skip(j)).push(s.last()) =~= t.take(j).push(x) + t.skip(
                j,
            ) + seq![s.last()]);
        }
        if j == s.len() - 1 {
            assert(s[j] != x);
        }
    }
}

/// The decimal text of a number is a run of digits whose value is the
/// number.
pub proof fn lemma_dec_nat_digits(n: nat)
    ensures
        all_digits(dec_nat(n)),
        digits_value(dec_nat(n)) == n,
    decreases n,
{
    let s = dec_nat(n);
    if n < 10 {
        assert(s.drop_last() =~= Seq::<char>::empty());
        assert(is_digit(s[0]));
        assert((digit_char(n) as u32) == ('0' as u32) + n);
        assert(s == Seq::<char>::empty().push(digit_char(n)));
        lemma_digits_value_push(Seq::<char>::empty(), digit_char(n));
        assert(digits_value(Seq::<char>::empty()) == 0);
    } else {
        lemma_dec_nat_digits(n / 10);
        let p = dec_nat(n / 10);
        assert(s == p.push(digit_char(n % 10)));
        assert(s.drop_last() =~= p);
        assert((digit_char(n % 10) as u32) == ('0' as u32) + n % 10);
        lemma_digits_value_push(p, digit_char(n % 10));
        assert forall|i: int| 0 <= i < s.len() implies is_digit(#[trigger] s[i]) by {
            if i < p.len() {
                assert(s[i] == p[i]);
            }
        }
    }
}

/// Reading the decimal text of an `i32` gives the number back.
pub proof fn lemma_parse_dec_int(v: i32)
    ensures
        parse_i32(dec_int(v as int)) == Some(v),
        dec_int(v as int).len() > 0,
        forall|i: int|
            0 <= i < dec_int(v as int).len() ==> is_digit(#[trigger] dec_int(v as int)[i]) || dec_int(
                v as int,
            )[i] == '-',
{
    let s = dec_int(v as int);
    if v < 0 {
        let d = dec_nat((-v) as nat);
        lemma_dec_nat_digits((-v) as nat);
        assert(s.drop_first() =~= d);
        assert forall|i: int| 0 <= i < s.len() implies is_digit(#[trigger] s[i]) || s[i] == '-' by {
            if i > 0 {
                assert(s[i] == d[i - 1]);
            }
        }
    } else {
        lemma_dec_nat_digits(v as nat);
        assert(is_digit(s[0]));
    }
}

/// What an insertion into a sorted set holds: the old texts and the new one.
pub proof fn lemma_sorted_insert_contains(s: Seq<Seq<char>>, x: Seq<char>)
    ensures
        forall|y: Seq<char>| #[trigger] sorted_insert(s, x).contains(y) ==> s.contains(y) || y == x,
    decreases s.len(),
{
    let r = sorted_insert(s, x);
    if s.len() == 0 {
        assert forall|y: Seq<char>| #[trigger] r.contains(y) implies s.contains(y) || y == x by {
            let k = choose|k: int| 0 <= k < r.len() && r[k] == y;
            assert(r[0] == x);
        }
    } else if text_lt(s.last(), x) {
        assert forall|y: Seq<char>| #[trigger] r.contains(y) implies s.contains(y) || y == x by {
            let k = choose|k: int| 0 <= k < r.len() && r[k] == y;
            if k < s.len() {
                assert(s[k] == y);
            }
        }
    } else if s.last() == x {
    } else {
        let t = s.drop_last();
        lemma_sorted_insert_contains(t, x);
        let inner = sorted_insert(t, x);
        assert forall|y: Seq<char>| #[trigger] r.contains(y) implies s.contains(y) || y == x by {
            let k = choose|k: int| 0 <= k < r.len() && r[k] == y;
            if k < inner.len() {
                assert(inner[k] == y);
                assert(inner.contains(y));
                if t.contains(y) {
                    let m = choose|m: int| 0 <= m < t.len() && t[m] == y;
                    assert(s[m] == y);
                }
            } else {
                assert(s[s.len() - 1] == y);
            }
        }
    }
}

/// The sorted dedup holds nothing but texts of the original sequence.
pub proof fn lemma_sorted_unique_contains(s: Seq<Seq<char>>)
    ensures
        forall|y: Seq<char>| #[trigger] sorted_unique(s).contains(y) ==> s.contains(y),
    decreases s.len(),
{
    if s.len() > 0 {
        let t = s.drop_last();
        lemma_sorted_unique_contains(t);
        lemma_sorted_insert_contains(sorted_unique(t), s.last());
        assert forall|y: Seq<char>| #[trigger] sorted_unique(s).contains(y) implies s.contains(y) by {
            if sorted_unique(t).contains(y) {
                assert(t.contains(y));
                let m = choose|m: int| 0 <= m < t.len() && t[m] == y;
                assert(s[m] == y);
            } else {
                assert(y == s.last());
                assert(s[s.len() - 1] == y);
            }
        }
    }
}

/// Inserting into a strictly ascending set keeps it strictly ascending.
pub proof fn lemma_sorted_insert_sorted(s: Seq<Seq<char>>, x: Seq<char>)
    requires
        strictly_sorted(s),
    ensures
        strictly_sorted(sorted_insert(s, x)),
    decreases s.len(),
{
    let r = sorted_insert(s, x);
    if s.len() == 0 {
    } else if text_lt(s.last(), x) {
        assert forall|i: int, j: int| 0 <= i < j < r.len() implies text_lt(#[trigger] r[i], #[trigger] r[j]) by {
            if j == s.len() {
                if i < s.len() - 1 {
                    lemma_text_lt_transitive(s[i], s[s.len() - 1], x);
                }
            } else {
                assert(r[i] == s[i] && r[j] == s[j]);
            }
        }
    } else if s.last() == x {
    } else {
        let t = s.drop_last();
        assert(strictly_sorted(t));
        lemma_sorted_insert_sorted(t, x);
        lemma_sorted_insert_contains(t, x);
        lemma_text_lt_total(s.last(), x);
        let inner = sorted_insert(t, x);
        assert forall|i: int, j: int| 0 <= i < j < r.len() implies text_lt(#[trigger] r[i], #[trigger] r[j]) by {
            if j == r.len() - 1 {
                assert(r[j] == s.last());
                assert(r[i] == inner[i]);
                assert(inner.contains(inner[i]));
                if inner[i] != x {
                    assert(t.contains(inner[i]));
                    let m = choose|m: int| 0 <= m < t.len() && t[m] == inner[i];
                    assert(s[m] == t[m]);
                }
            } else {
                assert(r[i] == inner[i] && r[j] == inner[j]);
            }
        }
    }
}

/// The sorted dedup is strictly ascending.
pub proof fn lemma_sorted_unique_sorted(s: Seq<Seq<char>>)
    ensures
        strictly_sorted(sorted_unique(s)),
    decreases s.len(),
{
    if s.len() > 0 {
        lemma_sorted_unique_sorted(s.drop_last());
        lemma_sorted_insert_sorted(sorted_unique(s.drop_last()), s.last());
    }
}

/// A strictly ascending sequence is its own sorted dedup.
pub proof fn lemma_sorted_unique_of_sorted(s: Seq<Seq<char>>)
    requires
        strictly_sorted(s),
    ensures
        sorted_unique(s) == s,
    decreases s.len(),
{
    if s.len() > 0 {
        let t = s.drop_last();
        assert(strictly_sorted(t));
        lemma_sorted_unique_of_sorted(t);
        if t.len() > 0 {
            assert(text_lt(t.last(), s.last()));
            assert(t.push(s.last()) =~= s);
        } else {
            assert(seq![s.last()] =~= s);
        }
    }
}

/// Adds a text to a strictly ascending set of texts, keeping it strictly
/// ascending; a text already present leaves the set unchanged.
pub fn insert_sorted_unique(set: &mut Vec<String>, x: String)
    requires
        strictly_sorted(views(old(set)@)),
    ensures
        strictly_sorted(views(final(set)@)),
        views(final(set)@).to_set() == views(old(set)@).to_set().insert(x@),
        views(old(set)@).contains(x@) ==> views(final(set)@) == views(old(set)@),
        views(final(set)@) == sorted_insert(views(old(set)@), x@),
{
    let ghost s0 = views(set@);
    let mut j: usize = 0;
    while j < set.len() && str_lt(set[j].as_str(), x.as_str())
        invariant
            j <= set.len(),
            set@ == old(set)@,
            s0 == views(set@),
            strictly_sorted(s0),
            forall|k: int| 0 <= k < j ==> text_lt(#[trigger] s0[k], x@),
        decreases set.len() - j,
    {
        j = j + 1;
    }
    proof {
        assert forall|k: int| j <= k < s0.len() implies !text_lt(#[trigger] s0[k], x@) by {
            if j < s0.len() {
                if k > j {
                    lemma_text_lt_asymmetric(s0[j as int], s0[k]);
                    if text_lt(s0[k], x@) {
                        lemma_text_lt_transitive(s0[j as int], s0[k], x@);
                    }
                }
            }
        }
        lemma_sorted_insert_at(s0, x@, j as int);
    }
    if j < set.len() && str_eq(set[j].as_str(), x.as_str()) {
        proof {
            assert(s0[j as int] == x@);
            assert(s0.contains(x@));
            assert(s0.to_set().insert(x@) =~= s0.to_set());
        }
        return;
    }
    proof {
        if j < set.len() {
            lemma_text_lt_total(s0[j as int], x@);
        }
        assert forall|k: int| j <= k < s0.len() implies text_lt(x@, #[trigger] s0[k]) by {
            if k > j {
                lemma_text_lt_transitive(x@, s0[j as int], s0[k]);
            }
        }
        assert(!s0.contains(x@)) by {
            if s0.contains(x@) {
                let k = choose|k: int| 0 <= k < s0.len() && s0[k] == x@;
                if k < j {
                    lemma_text_lt_irreflexive(x@);
                } else {
                    lemma_text_lt_irreflexive(x@);
                }
            }
        }
    }
    set.insert(j, x);
    proof {
        let s1 = views(set@);
        assert(s1 =~= s0.take(j as int).push(x@) + s0.skip(j as int));
        assert forall|a: int, b: int| 0 <= a < b < s1.len() implies text_lt(
            #[trigger] s1[a],
            #[trigger] s1[b],
        ) by {
            if b < j {
                assert(s1[a] == s0[a]);
                assert(s1[b] == s0[b]);
            } else if b == j {
                assert(s1[a] == s0[a]);
            } else {
                assert(s1[b] == s0[b - 1]);
                if a < j {
                    assert(s1[a] == s0[a]);
                } else if a > j {
                    assert(s1[a] == s0[a - 1]);
                }
            }
        }
        assert forall|t: Seq<char>| s1.to_set().contains(t) <==> s0.to_set().insert(x@).contains(
            t,
        ) by {
            if s1.contains(t) {
                let k = choose|k: int| 0 <= k < s1.len() && s1[k] == t;
                if k < j {
                    assert(s0[k] == t);
                } else if k > j {
                    assert(s0[k - 1] == t);
                }
            }
            if s0.contains(t) {
                let k = choose|k: int| 0 <= k < s0.len() && s0[k] == t;
                if k < j {
                    assert(s1[k] == t);
                } else {
                    assert(s1[k + 1] == t);
                }
            }
            if t == x@ {
                assert(s1[j as int] == t);
            }
        }
        assert(s1.to_set() =~= s0.to_set().insert(x@));
    }
}


/// The concatenation of a sequence of texts.
pub open spec fn concat(s: Seq<Seq<char>>) -> Seq<char>
    decreases s.len(),
{
    if s.len() == 0 {
        Seq::empty()
    } else {
        concat(s.drop_last()) + s.last()
    }
}

/// Concatenating one more text.
pub proof fn lemma_concat_push(s: Seq<Seq<char>>, x: Seq<char>)
    ensures
        concat(s.push(x)) == concat(s) + x,
{
    assert(s.push(x).drop_last() =~= s);
}

/// Joining one more text.
pub proof fn lemma_join_push(s: Seq<Seq<char>>, sep: Seq<char>, x: Seq<char>)
    ensures
        join(s.push(x), sep) == if s.len() == 0 {
            x
        } else {
            join(s, sep) + sep + x
        },
{
    assert(s.push(x).drop_last() =~= s);
    if s.len() == 0 {
        assert(s.push(x)[0] == x);
    }
}

/// The texts of a vector of strings joined with a separator
/// (`[String]::join`).
pub fn join_strings(v: &Vec<String>, sep: &str) -> (r: String)
    ensures
        r@ == join(views(v@), sep@),
{
    let mut out = String::new();
    let mut i: usize = 0;
    while i < v.len()
        invariant
            i <= v.len(),
            out@ == join(views(v@.take(i as int)), sep@),
        decreases v.len() - i,
    {
        proof {
            lemma_views_take_next(v@, i as int);
            lemma_join_push(views(v@.take(i as int)), sep@, v@[i as int]@);
        }
        if i > 0 {
            append(&mut out, sep);
        }
        append(&mut out, v[i].as_str());
        i = i + 1;
    }
    assert(v@.take(v.len() as int) =~= v@);
    out
}


/// `byte_len` of a prefix grows by the width of the next character.
pub proof fn lemma_byte_len_take_next(s: Seq<char>, i: int)
    requires
        0 <= i < s.len(),
    ensures
        byte_len(s.take(i + 1)) == byte_len(s.take(i)) + utf8_width(s[i]),
{
    assert(s.take(i + 1).drop_last() =~= s.take(i));
}

/// `byte_len` never decreases along prefixes.
pub proof fn lemma_byte_len_take_mono(s: Seq<char>, i: int, j: int)
    requires
        0 <= i <= j <= s.len(),
    ensures
        byte_len(s.take(i)) <= byte_len(s.take(j)),
    decreases j - i,
{
    if i < j {
        lemma_byte_len_take_mono(s, i, j - 1);
        lemma_byte_len_take_next(s, j - 1);
    }
}

fn char_width(c: char) -> (r: usize)
    ensures
        r == utf8_width(c),
{
    let u = c as u32;
    if u < 0x80 {
        1
    } else if u < 0x800 {
        2
    } else if u < 0x10000 {
        3
    } else {
        4
    }
}

/// Whether the UTF-8 length of a text is at most `limit` bytes.
pub fn byte_len_at_most(s: &str, limit: usize) -> (r: bool)
    ensures
        r == (byte_len(s@) <= limit),
{
    let chars = chars_of(s);
    let mut acc: usize = 0;
    let mut i: usize = 0;
    while i < chars.len()
        invariant
            i <= chars.len(),
            chars@ == s@,
            acc == byte_len(s@.take(i as int)),
            acc <= limit,
        decreases chars.len() - i,
    {
        proof {
            lemma_byte_len_take_next(s@, i as int);
        }
        let w = char_width(chars[i]);
        if w > limit - acc {
            proof {
                lemma_byte_len_take_mono(s@, i as int + 1, s@.len() as int);
                assert(s@.take(s@.len() as int) =~= s@);
            }
            return false;
        }
        acc = acc + w;
        i = i + 1;
    }
    assert(s@.take(chars.len() as int) =~= s@);
    true
}

/// The first `n` characters of a text (all of it when shorter).
pub fn take_chars(s: &str, n: usize) -> (r: String)
    ensures
        r@ == if s@.len() <= n {
            s@
        } else {
            s@.take(n as int)
        },
{
    let v = chars_of(s);
    if v.len() <= n {
        return owned(s);
    }
    let r = string_from_range(&v, 0, n);
    assert(r@ =~= s@.take(n as int));
    r
}


/// The last `n` hexadecimal digits of a value, most significant first.
pub open spec fn hex_fixed(v: u128, n: nat) -> Seq<char>
    decreases n,
{
    if n == 0 {
        Seq::empty()
    } else {
        hex_fixed(v / 16, (n - 1) as nat).push(crate::json::hex_digit((v % 16) as nat))
    }
}

/// The hyphenated lower-case text of a UUID given as its 128-bit value:
/// 32 hexadecimal digits grouped 8-4-4-4-12.
pub open spec fn uuid_text(v: u128) -> Seq<char> {
    let d = hex_fixed(v, 32);
    d.take(8) + seq!['-'] + d.subrange(8, 12) + seq!['-'] + d.subrange(12, 16) + seq!['-']
        + d.subrange(16, 20) + seq!['-'] + d.subrange(20, 32)
}

/// `hex_fixed` has exactly `n` digits.
pub proof fn lemma_hex_fixed_len(v: u128, n: nat)
    ensures
        hex_fixed(v, n).len() == n,
    decreases n,
{
    if n > 0 {
        lemma_hex_fixed_len(v / 16, (n - 1) as nat);
    }
}

pub(crate) fn push_hex_fixed(out: &mut String, v: u128, n: u32)
    ensures
        final(out)@ == old(out)@ + hex_fixed(v, n as nat),
    decreases n,
{
    if n > 0 {
        push_hex_fixed(out, v / 16, n - 1);
        out.push(crate::json::hex_char((v % 16) as u32));
        assert(final(out)@ =~= old(out)@ + hex_fixed(v, n as nat));
    } else {
        assert(final(out)@ =~= old(out)@ + hex_fixed(v, n as nat));
    }
}

/// The hyphenated text of a UUID (see `uuid_text`).
pub fn uuid_to_string(v: u128) -> (r: String)
    ensures
        r@ == uuid_text(v),
{
    let mut digits = String::new();
    push_hex_fixed(&mut digits, v, 32);
    let d = chars_of(digits.as_str());
    assert(d@ =~= hex_fixed(v, 32));
    proof {
        lemma_hex_fixed_len(v, 32);
    }
    let mut r = string_from_range(&d, 0, 8);
    r.push('-');
    append(&mut r, string_from_range(&d, 8, 12).as_str());
    r.push('-');
    append(&mut r, string_from_range(&d, 12, 16).as_str());
    r.push('-');
    append(&mut r, string_from_range(&d, 16, 20).as_str());
    r.push('-');
    append(&mut r, string_from_range(&d, 20, 32).as_str());
    assert(r@ =~= uuid_text(v));
    r
}


/// The longest prefix of a text whose UTF-8 encoding has at most `n`
/// bytes.
pub open spec fn prefix_within(s: Seq<char>, n: nat) -> Seq<char>
    decreases s.len(),
{
    if s.len() == 0 || utf8_width(s[0]) > n {
        Seq::empty()
    } else {
        seq![s[0]] + prefix_within(s.drop_first(), (n - utf8_width(s[0])) as nat)
    }
}

/// `byte_len` of a text with one more character in front.
pub proof fn lemma_byte_len_cons(c: char, s: Seq<char>)
    ensures
        byte_len(seq![c] + s) == utf8_width(c) + byte_len(s),
    decreases s.len(),
{
    let t = seq![c] + s;
    if s.len() == 0 {
        assert(t.drop_last() =~= Seq::<char>::empty());
        assert(t.last() == c);
        assert(byte_len(Seq::<char>::empty()) == 0);
    } else {
        lemma_byte_len_cons(c, s.drop_last());
        assert(t.drop_last() =~= seq![c] + s.drop_last());
        assert(t.last() == s.last());
    }
}

/// `byte_len` adds up over concatenation.
pub proof fn lemma_byte_len_concat(a: Seq<char>, b: Seq<char>)
    ensures
        byte_len(a + b) == byte_len(a) + byte_len(b),
    decreases b.len(),
{
    if b.len() == 0 {
        assert(a + b =~= a);
    } else {
        lemma_byte_len_concat(a, b.drop_last());
        assert((a + b).drop_last() =~= a + b.drop_last());
        assert((a + b).last() == b.last());
    }
}

/// The prefix within `n` bytes is a prefix of at most `n` bytes.
pub proof fn lemma_prefix_within(s: Seq<char>, n: nat)
    ensures
        prefix_within(s, n).len() <= s.len(),
        prefix_within(s, n) == s.take(prefix_within(s, n).len() as int),
        byte_len(prefix_within(s, n)) <= n,
        byte_len(s) <= n ==> prefix_within(s, n) == s,
    decreases s.len(),
{
    if s.len() == 0 {
        assert(s.take(0) =~= s);
    } else if utf8_width(s[0]) > n {
        assert(s.take(0) =~= Seq::<char>::empty());
        if byte_len(s) <= n {
            lemma_byte_len_cons(s[0], s.drop_first());
            assert(seq![s[0]] + s.drop_first() =~= s);
        }
    } else {
        let rest = s.drop_first();
        let m = (n - utf8_width(s[0])) as nat;
        lemma_prefix_within(rest, m);
        lemma_byte_len_cons(s[0], prefix_within(rest, m));
        let p = prefix_within(s, n);
        assert(p =~= s.take(p.len() as int));
        if byte_len(s) <= n {
            lemma_byte_len_cons(s[0], rest);
            assert(seq![s[0]] + rest =~= s);
        }
    }
}

/// The longest prefix of a string within `n` bytes (see `prefix_within`).
pub fn prefix_within_bytes(s: &str, n: usize) -> (r: String)
    ensures
        r@ == prefix_within(s@, n as nat),
{
    let chars = chars_of(s);
    let mut out = String::new();
    let mut budget: usize = n;
    let mut i: usize = 0;
    assert(s@.skip(0) =~= s@);
    assert(out@ + prefix_within(s@.skip(0), n as nat) =~= prefix_within(s@, n as nat));
    while i < chars.len() && char_width(chars[i]) <= budget
        invariant
            i <= chars.len(),
            chars@ == s@,
            out@ + prefix_within(s@.skip(i as int), budget as nat) == prefix_within(s@, n as nat),
        decreases chars.len() - i,
    {
        let w = char_width(chars[i]);
        proof {
            let t = s@.skip(i as int);
            assert(t[0] == chars@[i as int]);
            assert(t.drop_first() =~= s@.skip(i as int + 1));
        }
        out.push(chars[i]);
        budget = budget - w;
        i = i + 1;
        proof {
            let t = s@.skip(i as int - 1);
            assert(out@ + prefix_within(s@.skip(i as int), budget as nat) =~= prefix_within(s@, n as nat));
        }
    }
    proof {
        let t = s@.skip(i as int);
        if i < chars.len() {
            assert(t[0] == chars@[i as int]);
        }
        assert(prefix_within(t, budget as nat) =~= Seq::<char>::empty());
        assert(out@ =~= out@ + Seq::<char>::empty());
    }
    out
}


/// The pieces of a text between `sep` characters, left to right; with
/// `n` characters read, the finished pieces and the piece in progress.
pub open spec fn split_state(s: Seq<char>, sep: char, n: nat) -> (Seq<Seq<char>>, Seq<char>)
    decreases n,
{
    if n == 0 {
        (Seq::empty(), Seq::empty())
    } else {
        let prev = split_state(s, sep, (n - 1) as nat);
        let c = s[n - 1];
        if c == sep {
            (prev.0.push(prev.1), Seq::empty())
        } else {
            (prev.0, prev.1.push(c))
        }
    }
}

/// The pieces of a text between `sep` characters (`str::split`).
pub open spec fn split_on(s: Seq<char>, sep: char) -> Seq<Seq<char>> {
    let st = split_state(s, sep, s.len());
    st.0.push(st.1)
}

/// The pieces of a string between `sep` characters (see `split_on`).
pub fn split_char(s: &str, sep: char) -> (r: Vec<String>)
    ensures
        views(r@) == split_on(s@, sep),
{
    let chars = chars_of(s);
    let mut done: Vec<String> = Vec::new();
    let mut cur = String::new();
    let mut i: usize = 0;
    while i < chars.len()
        invariant
            i <= chars.len(),
            chars@ == s@,
            (views(done@), cur@) == split_state(s@, sep, i as nat),
        decreases chars.len() - i,
    {
        let c = chars[i];
        if c == sep {
            let piece = cur;
            proof {
                lemma_views_push(done@, piece);
            }
            done.push(piece);
            cur = String::new();
        } else {
            cur.push(c);
        }
        i = i + 1;
    }
    proof {
        lemma_views_push(done@, cur);
    }
    done.push(cur);
    done
}

/// Whether a text equals another up to ASCII case, as `eq_ignore_ascii_case`.
pub fn str_eq_ascii_case(a: &str, b: &str) -> (r: bool)
    ensures
        r == eq_ignore_case(a@, b@),
{
    str_eq_ignore_case(a, b)
}

/// The trimmed text when it is not blank.
pub open spec fn trimmed_nonblank(s: Seq<char>) -> Option<Seq<char>> {
    if trim(s).len() > 0 {
        Some(trim(s))
    } else {
        None
    }
}

/// The trimmed text of a string when it is not blank.
pub fn trim_to_option(value: &str) -> (r: Option<String>)
    ensures
        opt_view(r) == trimmed_nonblank(value@),
{
    let t = trim_str(value);
    if t.as_str().unicode_len() == 0 {
        None
    } else {
        Some(t)
    }
}


/// Whether a vector of strings holds a text.
pub fn strings_contain(items: &Vec<String>, value: &str) -> (r: bool)
    ensures
        r == views(items@).contains(value@),
{
    let mut i: usize = 0;
    while i < items.len()
        invariant
            i <= items.len(),
            forall|k: int| 0 <= k < i ==> views(items@)[k] != value@,
        decreases items.len() - i,
    {
        assert(views(items@)[i as int] == items@[i as int]@);
        if str_eq(items[i].as_str(), value) {
            return true;
        }
        i = i + 1;
    }
    false
}


/// The hexadecimal key of a 128-bit value: 32 digits, so that text order
/// is numeric order.
pub fn u128_hex_key(v: u128) -> (r: String)
    ensures
        r@ == hex_fixed(v, 32),
{
    let mut s = String::new();
    push_hex_fixed(&mut s, v, 32);
    assert(s@ =~= hex_fixed(v, 32));
    s
}

} // verus!
