//! Character-level string handling shared by every module: trimming, prefix
//! and substring search, ASCII case folding and number formatting.
//!
//! Work is done on `Vec<char>`, whose view is the same `Seq<char>` as the view
//! of the `str`/`String` it came from.
use vstd::prelude::*;

verus! {

/// Unicode `White_Space`, the set `char::is_whitespace` and `str::trim` use.
pub open spec fn is_space(c: char) -> bool {
    let u = c as u32;
    ||| (0x9 <= u && u <= 0xd)
    ||| u == 0x20
    ||| u == 0x85
    ||| u == 0xa0
    ||| u == 0x1680
    ||| (0x2000 <= u && u <= 0x200a)
    ||| u == 0x2028
    ||| u == 0x2029
    ||| u == 0x202f
    ||| u == 0x205f
    ||| u == 0x3000
}

/// `s` without its leading white space.
pub open spec fn trim_start(s: Seq<char>) -> Seq<char>
    decreases s.len(),
{
    if s.len() > 0 && is_space(s[0]) {
        trim_start(s.drop_first())
    } else {
        s
    }
}

/// `s` without its trailing white space.
pub open spec fn trim_end(s: Seq<char>) -> Seq<char>
    decreases s.len(),
{
    if s.len() > 0 && is_space(s.last()) {
        trim_end(s.drop_last())
    } else {
        s
    }
}

/// `str::trim`: no white space at either end.
pub open spec fn trim(s: Seq<char>) -> Seq<char> {
    trim_end(trim_start(s))
}

/// `s` starts with `p`.
pub open spec fn has_prefix(s: Seq<char>, p: Seq<char>) -> bool {
    p.len() <= s.len() && s.take(p.len() as int) == p
}

/// `n` occurs in `h` starting at position `i`.
pub open spec fn occurs_at(h: Seq<char>, n: Seq<char>, i: int) -> bool {
    0 <= i && i + n.len() <= h.len() && h.subrange(i, i + n.len()) == n
}

/// `n` occurs somewhere in `h`, as `str::contains` asks.
pub open spec fn contains(h: Seq<char>, n: Seq<char>) -> bool {
    exists|i: int| occurs_at(h, n, i)
}

/// The first position at or after `from` where `n` occurs in `h`, as
/// `str::find` reports it (counted in characters).
pub open spec fn find_from(h: Seq<char>, n: Seq<char>, from: int) -> Option<int>
    decreases h.len() + 1 - from,
{
    if from < 0 || from + n.len() > h.len() {
        None
    } else if occurs_at(h, n, from) {
        Some(from)
    } else {
        find_from(h, n, from + 1)
    }
}

/// `str::trim_start_matches` with a string pattern: every leading copy of `p`
/// removed.
pub open spec fn strip_prefixes(s: Seq<char>, p: Seq<char>) -> Seq<char>
    decreases s.len(),
{
    if p.len() > 0 && has_prefix(s, p) {
        strip_prefixes(s.skip(p.len() as int), p)
    } else {
        s
    }
}

/// `str::trim_end_matches` with a character pattern.
pub open spec fn strip_suffix_char(s: Seq<char>, c: char) -> Seq<char>
    decreases s.len(),
{
    if s.len() > 0 && s.last() == c {
        strip_suffix_char(s.drop_last(), c)
    } else {
        s
    }
}

/// `str::trim_matches` with a character pattern.
pub open spec fn strip_char(s: Seq<char>, c: char) -> Seq<char> {
    strip_suffix_char(strip_prefix_char(s, c), c)
}

/// `str::trim_start_matches` with a character pattern.
pub open spec fn strip_prefix_char(s: Seq<char>, c: char) -> Seq<char>
    decreases s.len(),
{
    if s.len() > 0 && s[0] == c {
        strip_prefix_char(s.drop_first(), c)
    } else {
        s
    }
}

/// `char::to_ascii_lowercase`.
pub open spec fn lower_char(c: char) -> char {
    if 'A' <= c && c <= 'Z' {
        ((c as u32) + 32) as char
    } else {
        c
    }
}

/// `str::to_ascii_lowercase`.
pub open spec fn lower(s: Seq<char>) -> Seq<char> {
    s.map_values(|c: char| lower_char(c))
}

/// `char::is_ascii_hexdigit`.
pub open spec fn is_hex_digit(c: char) -> bool {
    ('0' <= c && c <= '9') || ('a' <= c && c <= 'f') || ('A' <= c && c <= 'F')
}

/// Every character of `s` is an ASCII hex digit.
pub open spec fn all_hex(s: Seq<char>) -> bool {
    forall|i: int| 0 <= i < s.len() ==> is_hex_digit(#[trigger] s[i])
}

/// The character for a digit below 16, lower case for letters.
pub open spec fn digit_char(d: nat) -> char {
    if d < 10 {
        (48 + d) as char
    } else {
        (87 + d) as char
    }
}

/// `n` written in base `b` (10 or 16), most significant digit first and
/// without leading zeros, as `{}` and `{:x}` format it.
pub open spec fn digits(n: nat, b: nat) -> Seq<char>
    recommends
        b == 10 || b == 16,
    decreases n,
{
    if b < 2 || n < b {
        seq![digit_char(n)]
    } else {
        proof {
            assert(n / b < n) by (nonlinear_arith)
                requires
                    b >= 2,
                    n >= b,
            ;
        }
        digits(n / b, b).push(digit_char(n % b))
    }
}

/// `n` in decimal.
pub open spec fn decimal(n: nat) -> Seq<char> {
    digits(n, 10)
}

/// `n` in lower-case hexadecimal.
pub open spec fn hex(n: nat) -> Seq<char> {
    digits(n, 16)
}

/// `{:02x}` of a byte.
pub open spec fn hex_byte(b: u8) -> Seq<char> {
    seq![digit_char((b / 16) as nat), digit_char((b % 16) as nat)]
}

/// The characters of a string slice.
pub fn chars_of(s: &str) -> (r: Vec<char>)
    ensures
        r@ == s@,
{
    let mut out: Vec<char> = Vec::new();
    for c in it: s.chars()
        invariant
            it.seq() == s@,
            out@ == s@.take(it.index() as int),
    {
        out.push(c);
        assert(s@.take(it.index() + 1) =~= s@.take(it.index() as int).push(c));
    }
    assert(out@ =~= s@);
    out
}

/// Calls `String::from_iter` on the characters: the `String` holding exactly
/// these characters, in order, as `FromIterator<&char>` for `String` is
/// documented to build it.
#[verifier::external_body]
pub fn string_of(v: &[char]) -> (r: String)
    ensures
        r@ == v@,
{
    String::from_iter(v.iter())
}

/// Appends the characters of `s`.
pub fn push_str(out: &mut Vec<char>, s: &str)
    ensures
        final(out)@ == old(out)@ + s@,
{
    let mut more = chars_of(s);
    out.append(&mut more);
}

/// Appends a copy of `v`.
pub fn push_chars(out: &mut Vec<char>, v: &[char])
    ensures
        final(out)@ == old(out)@ + v@,
{
    let mut i: usize = 0;
    while i < v.len()
        invariant
            i <= v@.len(),
            out@ == old(out)@ + v@.take(i as int),
        decreases v@.len() - i,
    {
        out.push(v[i]);
        i = i + 1;
        assert(v@.take(i as int) == v@.take(i - 1).push(v@[i - 1]));
    }
    assert(v@.take(v@.len() as int) == v@);
}

/// The characters `v[from..to]`.
pub fn slice_of(v: &[char], from: usize, to: usize) -> (r: Vec<char>)
    requires
        from <= to <= v@.len(),
    ensures
        r@ == v@.subrange(from as int, to as int),
{
    let mut out: Vec<char> = Vec::new();
    let mut i: usize = from;
    while i < to
        invariant
            from <= i <= to <= v@.len(),
            out@ == v@.subrange(from as int, i as int),
        decreases to - i,
    {
        out.push(v[i]);
        i = i + 1;
        assert(v@.subrange(from as int, i as int) == v@.subrange(from as int, i - 1).push(v@[i - 1]));
    }
    out
}

/// Whether the two character sequences are equal.
pub fn same(a: &[char], b: &[char]) -> (r: bool)
    ensures
        r == (a@ == b@),
{
    if a.len() != b.len() {
        return false;
    }
    let mut i: usize = 0;
    while i < a.len()
        invariant
            a@.len() == b@.len(),
            i <= a@.len(),
            forall|k: int| 0 <= k < i ==> a@[k] == b@[k],
        decreases a@.len() - i,
    {
        if a[i] != b[i] {
            return false;
        }
        i = i + 1;
    }
    assert(a@ =~= b@);
    true
}

/// `char::is_whitespace`.
pub fn is_space_char(c: char) -> (r: bool)
    ensures
        r == is_space(c),
{
    let u = c as u32;
    (0x9 <= u && u <= 0xd) || u == 0x20 || u == 0x85 || u == 0xa0 || u == 0x1680 || (0x2000 <= u
        && u <= 0x200a) || u == 0x2028 || u == 0x2029 || u == 0x202f || u == 0x205f || u == 0x3000
}

proof fn lemma_trim_start_skip(s: Seq<char>, i: int)
    requires
        0 <= i <= s.len(),
        forall|k: int| 0 <= k < i ==> is_space(#[trigger] s[k]),
    ensures
        trim_start(s) == trim_start(s.skip(i)),
    decreases i,
{
    if i > 0 {
        assert(s.skip(1) == s.drop_first());
        lemma_trim_start_skip(s.drop_first(), i - 1);
        assert(s.drop_first().skip(i - 1) == s.skip(i));
    } else {
        assert(s.skip(0) == s);
    }
}

proof fn lemma_trim_end_take(s: Seq<char>, j: int)
    requires
        0 <= j <= s.len(),
        forall|k: int| j <= k < s.len() ==> is_space(#[trigger] s[k]),
    ensures
        trim_end(s) == trim_end(s.take(j)),
    decreases s.len() - j,
{
    if j < s.len() {
        assert(s.take(s.len() - 1) == s.drop_last());
        lemma_trim_end_take(s.drop_last(), j);
        assert(s.drop_last().take(j) == s.take(j));
    } else {
        assert(s.take(s.len() as int) == s);
    }
}

/// `trim_start` removes a prefix and leaves no white space in front.
pub proof fn lemma_trim_start(s: Seq<char>)
    ensures
        exists|k: int| 0 <= k <= s.len() && trim_start(s) == s.skip(k),
        trim_start(s).len() > 0 ==> !is_space(trim_start(s)[0]),
    decreases s.len(),
{
    if s.len() > 0 && is_space(s[0]) {
        lemma_trim_start(s.drop_first());
        let k = choose|k: int| 0 <= k <= s.drop_first().len() && trim_start(s.drop_first()) == s.drop_first().skip(k);
        assert(s.drop_first().skip(k) == s.skip(k + 1));
    } else {
        assert(s.skip(0) == s);
    }
}

/// `trim_end` keeps a prefix and leaves no white space at the back.
pub proof fn lemma_trim_end(s: Seq<char>)
    ensures
        exists|k: int| 0 <= k <= s.len() && trim_end(s) == s.take(k),
        trim_end(s).len() > 0 ==> !is_space(trim_end(s).last()),
    decreases s.len(),
{
    if s.len() > 0 && is_space(s.last()) {
        lemma_trim_end(s.drop_last());
        let k = choose|k: int| 0 <= k <= s.drop_last().len() && trim_end(s.drop_last()) == s.drop_last().take(k);
        assert(s.drop_last().take(k) == s.take(k));
    } else {
        assert(s.take(s.len() as int) == s);
    }
}

/// Trimming twice is trimming once.
pub proof fn lemma_trim_idempotent(s: Seq<char>)
    ensures
        trim(trim(s)) == trim(s),
{
    let a = trim_start(s);
    let u = trim_end(a);
    lemma_trim_start(s);
    lemma_trim_end(a);
    if u.len() > 0 {
        let k = choose|k: int| 0 <= k <= a.len() && u == a.take(k);
        assert(u[0] == a[0]);
        assert(trim_start(u) == u);
        assert(trim_end(u) == u);
    } else {
        assert(trim_start(u) == u);
    }
}

/// The bounds of `v` once trimmed.
pub fn trim_bounds(v: &[char]) -> (r: (usize, usize))
    ensures
        r.0 <= r.1 <= v@.len(),
        v@.subrange(r.0 as int, r.1 as int) == trim(v@),
{
    let mut i: usize = 0;
    while i < v.len() && is_space_char(v[i])
        invariant
            i <= v@.len(),
            forall|k: int| 0 <= k < i ==> is_space(#[trigger] v@[k]),
        decreases v@.len() - i,
    {
        i = i + 1;
    }
    proof {
        lemma_trim_start_skip(v@, i as int);
    }
    let ghost t = v@.skip(i as int);
    assert(trim_start(t) == t);
    let mut j: usize = v.len();
    while j > i && is_space_char(v[j - 1])
        invariant
            i <= j <= v@.len(),
            forall|k: int| j <= k < v@.len() ==> is_space(#[trigger] v@[k]),
        decreases j,
    {
        j = j - 1;
    }
    proof {
        assert forall|k: int| j - i <= k < t.len() implies is_space(#[trigger] t[k]) by {
            assert(t[k] == v@[k + i]);
        }
        lemma_trim_end_take(t, j - i);
        let u = t.take(j - i);
        assert(u == v@.subrange(i as int, j as int));
        if u.len() > 0 {
            assert(u.last() == v@[j - 1]);
        }
    }
    (i, j)
}

/// `str::trim`, as characters.
pub fn trim_chars(v: &[char]) -> (r: Vec<char>)
    ensures
        r@ == trim(v@),
{
    let (a, b) = trim_bounds(v);
    slice_of(v, a, b)
}

/// `str::trim`.
pub fn trimmed(s: &str) -> (r: Vec<char>)
    ensures
        r@ == trim(s@),
{
    let v = chars_of(s);
    trim_chars(&v)
}

/// Whether `n` occurs in `h` at position `i`.
pub fn occurs(h: &[char], n: &[char], i: usize) -> (r: bool)
    ensures
        r == occurs_at(h@, n@, i as int),
{
    if i > h.len() || n.len() > h.len() - i {
        return false;
    }
    let mut k: usize = 0;
    while k < n.len()
        invariant
            i + n@.len() <= h@.len(),
            i + n@.len() <= h.len(),
            k <= n@.len(),
            forall|m: int| 0 <= m < k ==> h@[i + m] == n@[m],
        decreases n@.len() - k,
    {
        if h[i + k] != n[k] {
            assert(h@.subrange(i as int, i + n@.len())[k as int] != n@[k as int]);
            return false;
        }
        k = k + 1;
    }
    assert(h@.subrange(i as int, i + n@.len()) =~= n@);
    true
}

/// `str::find` from a starting position, in characters.
pub fn find_chars(h: &[char], n: &[char], from: usize) -> (r: Option<usize>)
    ensures
        r matches Some(i) ==> find_from(h@, n@, from as int) == Some(i as int),
        r is None ==> find_from(h@, n@, from as int) is None,
{
    let mut i: usize = from;
    while i <= h.len() && n.len() <= h.len() - i
        invariant
            from <= i,
            find_from(h@, n@, from as int) == find_from(h@, n@, i as int),
        decreases h@.len() + 1 - i,
    {
        proof {
            if n@.len() == 0 {
                assert(h@.subrange(i as int, i as int) =~= n@);
            }
        }
        if occurs(h, n, i) {
            return Some(i);
        }
        i = i + 1;
    }
    None
}

/// A match found by `find_from` is a real occurrence, and none comes earlier.
pub proof fn lemma_find_from(h: Seq<char>, n: Seq<char>, from: int)
    requires
        0 <= from,
    ensures
        find_from(h, n, from) matches Some(i) ==> from <= i && occurs_at(h, n, i) && forall|
            k: int,
        |
            from <= k < i ==> !occurs_at(h, n, k),
        find_from(h, n, from) is None ==> forall|k: int| from <= k ==> !occurs_at(h, n, k),
    decreases h.len() + 1 - from,
{
    if from + n.len() <= h.len() && !occurs_at(h, n, from) {
        lemma_find_from(h, n, from + 1);
    }
}

/// A match exists exactly when `find_from` from the start finds one.
pub proof fn lemma_contains_find(h: Seq<char>, n: Seq<char>)
    ensures
        contains(h, n) <==> find_from(h, n, 0) is Some,
{
    lemma_find_from(h, n, 0);
    if let Some(i) = find_from(h, n, 0) {
        assert(occurs_at(h, n, i));
    }
}

/// `str::contains`.
pub fn contains_chars(h: &[char], n: &[char]) -> (r: bool)
    ensures
        r == contains(h@, n@),
{
    proof {
        lemma_contains_find(h@, n@);
    }
    find_chars(h, n, 0).is_some()
}

/// Whether `v` starts with `p`.
pub fn starts_with(v: &[char], p: &[char]) -> (r: bool)
    ensures
        r == has_prefix(v@, p@),
{
    let r = occurs(v, p, 0);
    proof {
        if p@.len() <= v@.len() {
            assert(v@.take(p@.len() as int) == v@.subrange(0, p@.len() as int));
        }
    }
    r
}

/// `str::trim_start_matches` with a string pattern.
pub fn strip_prefixes_chars(v: &[char], p: &[char]) -> (r: Vec<char>)
    ensures
        r@ == strip_prefixes(v@, p@),
{
    let mut i: usize = 0;
    if p.len() == 0 {
        return slice_of(v, 0, v.len());
    }
    assert(v@.skip(0) == v@);
    while i <= v.len() && occurs(v, p, i)
        invariant
            p@.len() > 0,
            i <= v@.len(),
            strip_prefixes(v@, p@) == strip_prefixes(v@.skip(i as int), p@),
        decreases v@.len() - i,
    {
        proof {
            let s = v@.skip(i as int);
            assert(s.take(p@.len() as int) == v@.subrange(i as int, i + p@.len()));
            assert(has_prefix(s, p@));
            assert(s.skip(p@.len() as int) == v@.skip(i + p@.len()));
        }
        i = i + p.len();
    }
    proof {
        let s = v@.skip(i as int);
        if has_prefix(s, p@) {
            assert(s.take(p@.len() as int) == v@.subrange(i as int, i + p@.len()));
        }
    }
    slice_of(v, i, v.len())
}

/// `str::trim_end_matches` with a character pattern.
pub fn strip_suffix_char_chars(v: &[char], c: char) -> (r: Vec<char>)
    ensures
        r@ == strip_suffix_char(v@, c),
{
    let mut j: usize = v.len();
    assert(v@.take(j as int) == v@);
    while j > 0 && v[j - 1] == c
        invariant
            j <= v@.len(),
            strip_suffix_char(v@, c) == strip_suffix_char(v@.take(j as int), c),
        decreases j,
    {
        proof {
            let s = v@.take(j as int);
            assert(s.drop_last() == v@.take(j - 1));
        }
        j = j - 1;
    }
    let r = slice_of(v, 0, j);
    assert(v@.take(j as int) == v@.subrange(0, j as int));
    r
}

/// `str::trim_start_matches` with a character pattern.
pub fn strip_prefix_char_chars(v: &[char], c: char) -> (r: Vec<char>)
    ensures
        r@ == strip_prefix_char(v@, c),
{
    let mut i: usize = 0;
    assert(v@.skip(0) == v@);
    while i < v.len() && v[i] == c
        invariant
            i <= v@.len(),
            strip_prefix_char(v@, c) == strip_prefix_char(v@.skip(i as int), c),
        decreases v@.len() - i,
    {
        proof {
            let s = v@.skip(i as int);
            assert(s.drop_first() == v@.skip(i + 1));
        }
        i = i + 1;
    }
    slice_of(v, i, v.len())
}

/// `str::trim_matches` with a character pattern.
pub fn strip_char_chars(v: &[char], c: char) -> (r: Vec<char>)
    ensures
        r@ == strip_char(v@, c),
{
    let a = strip_prefix_char_chars(v, c);
    strip_suffix_char_chars(&a, c)
}

/// `char::to_ascii_lowercase`.
pub fn lower_of(c: char) -> (r: char)
    ensures
        r == lower_char(c),
{
    if 'A' <= c && c <= 'Z' {
        let u = (c as u32) + 32;
        if u == 97 { 'a' } else if u == 98 { 'b' } else if u == 99 { 'c' } else if u == 100 { 'd' }
        else if u == 101 { 'e' } else if u == 102 { 'f' } else if u == 103 { 'g' }
        else if u == 104 { 'h' } else if u == 105 { 'i' } else if u == 106 { 'j' }
        else if u == 107 { 'k' } else if u == 108 { 'l' } else if u == 109 { 'm' }
        else if u == 110 { 'n' } else if u == 111 { 'o' } else if u == 112 { 'p' }
        else if u == 113 { 'q' } else if u == 114 { 'r' } else if u == 115 { 's' }
        else if u == 116 { 't' } else if u == 117 { 'u' } else if u == 118 { 'v' }
        else if u == 119 { 'w' } else if u == 120 { 'x' } else if u == 121 { 'y' } else { 'z' }
    } else {
        c
    }
}

/// `str::to_ascii_lowercase`, as characters.
pub fn lower_chars(v: &[char]) -> (r: Vec<char>)
    ensures
        r@ == lower(v@),
{
    let mut out: Vec<char> = Vec::new();
    let mut i: usize = 0;
    while i < v.len()
        invariant
            i <= v@.len(),
            out@ == lower(v@.take(i as int)),
        decreases v@.len() - i,
    {
        out.push(lower_of(v[i]));
        i = i + 1;
        assert(lower(v@.take(i as int)) =~= lower(v@.take(i - 1)).push(lower_char(v@[i - 1])));
    }
    assert(v@.take(v@.len() as int) == v@);
    out
}

/// `char::is_ascii_hexdigit`.
pub fn is_hex_char(c: char) -> (r: bool)
    ensures
        r == is_hex_digit(c),
{
    ('0' <= c && c <= '9') || ('a' <= c && c <= 'f') || ('A' <= c && c <= 'F')
}

/// Whether every character is an ASCII hex digit.
pub fn all_hex_chars(v: &[char]) -> (r: bool)
    ensures
        r == all_hex(v@),
{
    let mut i: usize = 0;
    while i < v.len()
        invariant
            i <= v@.len(),
            forall|k: int| 0 <= k < i ==> is_hex_digit(#[trigger] v@[k]),
        decreases v@.len() - i,
    {
        if !is_hex_char(v[i]) {
            return false;
        }
        i = i + 1;
    }
    true
}

/// The character of a digit below 16.
pub fn digit_of(d: u8) -> (r: char)
    requires
        d < 16,
    ensures
        r == digit_char(d as nat),
{
    if d == 0 { '0' } else if d == 1 { '1' } else if d == 2 { '2' } else if d == 3 { '3' }
    else if d == 4 { '4' } else if d == 5 { '5' } else if d == 6 { '6' } else if d == 7 { '7' }
    else if d == 8 { '8' } else if d == 9 { '9' } else if d == 10 { 'a' } else if d == 11 { 'b' }
    else if d == 12 { 'c' } else if d == 13 { 'd' } else if d == 14 { 'e' } else { 'f' }
}

/// Appends `n` written in base `b`.
pub fn push_digits(out: &mut Vec<char>, n: u128, b: u128)
    requires
        b == 10 || b == 16,
    ensures
        final(out)@ == old(out)@ + digits(n as nat, b as nat),
    decreases n,
{
    if n < b {
        out.push(digit_of(n as u8));
        assert(digits(n as nat, b as nat) == seq![digit_char(n as nat)]);
    } else {
        push_digits(out, n / b, b);
        out.push(digit_of((n % b) as u8));
        assert(digits(n as nat, b as nat) == digits((n / b) as nat, b as nat).push(
            digit_char((n % b) as nat),
        ));
    }
}

/// `n` in decimal.
pub fn decimal_chars(n: u128) -> (r: Vec<char>)
    ensures
        r@ == decimal(n as nat),
{
    let mut out: Vec<char> = Vec::new();
    push_digits(&mut out, n, 10);
    assert(out@ == Seq::<char>::empty() + decimal(n as nat));
    out
}

/// `{:02x}` of a byte.
pub fn push_hex_byte(out: &mut Vec<char>, b: u8)
    ensures
        final(out)@ == old(out)@ + hex_byte(b),
{
    out.push(digit_of(b / 16));
    out.push(digit_of(b % 16));
    assert(old(out)@.push(digit_char((b / 16) as nat)).push(digit_char((b % 16) as nat))
        == old(out)@ + hex_byte(b));
}

/// `n` in decimal, with a `-` in front when it is negative.
pub open spec fn signed_decimal(n: int) -> Seq<char> {
    if n < 0 {
        seq!['-'] + decimal((-n) as nat)
    } else {
        decimal(n as nat)
    }
}

/// `n` in decimal, with a `-` in front when it is negative.
pub fn signed_decimal_chars(n: i64) -> (r: Vec<char>)
    ensures
        r@ == signed_decimal(n as int),
{
    if n < 0 {
        let magnitude: u128 = (0i128 - (n as i128)) as u128;
        let mut out: Vec<char> = vec!['-'];
        push_digits(&mut out, magnitude, 10);
        out
    } else {
        decimal_chars(n as u128)
    }
}

/// A number always has at least one digit.
pub proof fn lemma_digits_nonempty(n: nat, b: nat)
    ensures
        digits(n, b).len() >= 1,
{
}

} // verus!
