//! Character-level text utilities shared by the pipeline stages.
//!
//! Text is modelled as a sequence of Unicode scalar values (`Seq<char>`),
//! the view that vstd gives to `String` and `str`.

use vstd::prelude::*;

verus! {

// ---------------------------------------------------------------------------
// Conversions between strings and character vectors
// ---------------------------------------------------------------------------

/// Collects the characters of a string slice.
pub fn chars_of(s: &str) -> (v: Vec<char>)
    ensures
        v@ == s@,
{
    broadcast use vstd::string::axiom_spec_iter;

    let mut v: Vec<char> = Vec::new();
    for c in it: s.chars()
        invariant
            it.seq() == s@,
            v@ == it.seq().take(it.index()),
    {
        v.push(c);
    }
    v
}

/// Appends one character to a string (`String::push`).
#[verifier::external_body]
fn string_push(s: &mut String, c: char)
    ensures
        final(s)@ == old(s)@.push(c),
{
    s.push(c);
}

/// Builds a string from a slice of characters.
pub fn string_of(v: &[char]) -> (s: String)
    ensures
        s@ == v@,
{
    let mut s = String::new();
    let n = v.len();
    for i in 0..n
        invariant
            n == v@.len(),
            s@ == v@.take(i as int),
    {
        string_push(&mut s, v[i]);
        assert(v@.take(i + 1) =~= v@.take(i as int).push(v@[i as int]));
    }
    assert(v@.take(n as int) =~= v@);
    s
}

/// Copies a sequence of characters out of a slice.
pub fn copy_range(v: &[char], lo: usize, hi: usize) -> (r: Vec<char>)
    requires
        lo <= hi <= v@.len(),
    ensures
        r@ == v@.subrange(lo as int, hi as int),
{
    let mut r: Vec<char> = Vec::new();
    let mut i = lo;
    while i < hi
        invariant
            lo <= i <= hi <= v@.len(),
            r@ == v@.subrange(lo as int, i as int),
        decreases hi - i,
    {
        r.push(v[i]);
        assert(v@.subrange(lo as int, i + 1) =~= v@.subrange(lo as int, i as int).push(v@[i as int]));
        i = i + 1;
    }
    r
}

/// Appends all characters of `b` to `a`.
pub fn append_chars(a: &mut Vec<char>, b: &[char])
    ensures
        final(a)@ == old(a)@ + b@,
{
    let n = b.len();
    for i in 0..n
        invariant
            n == b@.len(),
            a@ == old(a)@ + b@.take(i as int),
    {
        a.push(b[i]);
        assert(b@.take(i + 1) =~= b@.take(i as int).push(b@[i as int]));
    }
    assert(b@.take(n as int) =~= b@);
}

/// Whether two character slices hold the same characters.
pub fn chars_eq(a: &[char], b: &[char]) -> (r: bool)
    ensures
        r == (a@ == b@),
{
    if a.len() != b.len() {
        return false;
    }
    let n = a.len();
    for i in 0..n
        invariant
            n == a@.len(),
            n == b@.len(),
            forall|k: int| 0 <= k < i ==> a@[k] == b@[k],
    {
        if a[i] != b[i] {
            return false;
        }
    }
    assert(a@ =~= b@);
    true
}

// ---------------------------------------------------------------------------
// Whitespace and trimming
// ---------------------------------------------------------------------------

/// Unicode `White_Space`, the property that `char::is_whitespace` tests.
pub open spec fn is_ws(c: char) -> bool {
    let u = c as u32;
    ||| u == 0x20
    ||| 0x09 <= u <= 0x0d
    ||| u == 0x85
    ||| u == 0xa0
    ||| u == 0x1680
    ||| 0x2000 <= u <= 0x200a
    ||| u == 0x2028
    ||| u == 0x2029
    ||| u == 0x202f
    ||| u == 0x205f
    ||| u == 0x3000
}

/// Whether a character is Unicode white space.
pub fn is_whitespace(c: char) -> (r: bool)
    ensures
        r == is_ws(c),
{
    let u = c as u32;
    u == 0x20 || (0x09 <= u && u <= 0x0d) || u == 0x85 || u == 0xa0 || u == 0x1680 || (0x2000
        <= u && u <= 0x200a) || u == 0x2028 || u == 0x2029 || u == 0x202f || u == 0x205f || u
        == 0x3000
}

/// `s` without its leading white space.
pub open spec fn trim_start(s: Seq<char>) -> Seq<char>
    decreases s.len(),
{
    if s.len() > 0 && is_ws(s[0]) {
        trim_start(s.drop_first())
    } else {
        s
    }
}

/// `s` without its trailing white space.
pub open spec fn trim_end(s: Seq<char>) -> Seq<char>
    decreases s.len(),
{
    if s.len() > 0 && is_ws(s.last()) {
        trim_end(s.drop_last())
    } else {
        s
    }
}

/// `s` without leading and trailing white space (`str::trim`).
pub open spec fn trim(s: Seq<char>) -> Seq<char> {
    trim_end(trim_start(s))
}

proof fn lemma_trim_start_step(s: Seq<char>, i: int)
    requires
        0 <= i < s.len(),
        is_ws(s[i]),
    ensures
        trim_start(s.subrange(i, s.len() as int)) == trim_start(s.subrange(i + 1, s.len() as int)),
{
    assert(s.subrange(i, s.len() as int).drop_first() =~= s.subrange(i + 1, s.len() as int));
}

proof fn lemma_trim_end_step(s: Seq<char>, lo: int, j: int)
    requires
        0 <= lo < j <= s.len(),
        is_ws(s[j - 1]),
    ensures
        trim_end(s.subrange(lo, j)) == trim_end(s.subrange(lo, j - 1)),
{
    assert(s.subrange(lo, j).drop_last() =~= s.subrange(lo, j - 1));
}

/// The characters of `v` without leading and trailing white space.
pub fn trim_chars(v: &[char]) -> (r: Vec<char>)
    ensures
        r@ == trim(v@),
{
    let n = v.len();
    let mut i: usize = 0;
    assert(v@.subrange(0, n as int) =~= v@);
    while i < n && is_whitespace(v[i])
        invariant
            i <= n == v@.len(),
            trim_start(v@) == trim_start(v@.subrange(i as int, n as int)),
        decreases n - i,
    {
        proof {
            lemma_trim_start_step(v@, i as int);
        }
        i = i + 1;
    }
    let ghost start = v@.subrange(i as int, n as int);
    assert(trim_start(start) == start);
    let mut j: usize = n;
    while j > i && is_whitespace(v[j - 1])
        invariant
            i <= j <= n == v@.len(),
            start == v@.subrange(i as int, n as int),
            trim_end(start) == trim_end(v@.subrange(i as int, j as int)),
        decreases j - i,
    {
        proof {
            lemma_trim_end_step(v@, i as int, j as int);
        }
        j = j - 1;
    }
    assert(trim_end(v@.subrange(i as int, j as int)) == v@.subrange(i as int, j as int));
    copy_range(v, i, j)
}

/// The text of `s` without leading and trailing white space.
pub fn trim_str(s: &str) -> (r: Vec<char>)
    ensures
        r@ == trim(s@),
{
    let v = chars_of(s);
    trim_chars(&v)
}

// ---------------------------------------------------------------------------
// Lower-casing
// ---------------------------------------------------------------------------

/// What `str::to_lowercase` returns for a text: its Unicode lower-case
/// mapping (character by character, but for a capital sigma, whose lower
/// case depends on whether it ends a word).
pub uninterp spec fn lowercase(s: Seq<char>) -> Seq<char>;

/// `str::to_lowercase`. Its result is taken to depend on the text alone.
#[verifier::external_body]
fn str_to_lowercase(s: &str) -> (r: String)
    ensures
        r@ == lowercase(s@),
{
    s.to_lowercase()
}

/// The lower-case form of a sequence of characters.
pub fn lowercase_chars(v: &[char]) -> (r: Vec<char>)
    ensures
        r@ == lowercase(v@),
{
    let s = string_of(v);
    let l = str_to_lowercase(s.as_str());
    chars_of(l.as_str())
}


// ---------------------------------------------------------------------------
// Prefixes, suffixes and occurrences
// ---------------------------------------------------------------------------

/// Whether `p` occurs in `s` starting at position `i`.
pub open spec fn occurs_at(s: Seq<char>, p: Seq<char>, i: int) -> bool {
    0 <= i && i + p.len() <= s.len() && s.subrange(i, i + p.len()) == p
}

/// `str::starts_with` on character sequences.
pub open spec fn starts_with(s: Seq<char>, p: Seq<char>) -> bool {
    occurs_at(s, p, 0)
}

/// `str::ends_with` on character sequences.
pub open spec fn ends_with(s: Seq<char>, p: Seq<char>) -> bool {
    occurs_at(s, p, s.len() - p.len())
}

/// `str::contains` with a text pattern.
pub open spec fn contains(s: Seq<char>, p: Seq<char>) -> bool {
    exists|i: int| occurs_at(s, p, i)
}

/// Whether `p` occurs in `v` at position `i`.
pub fn occurs_at_exec(v: &[char], p: &[char], i: usize) -> (r: bool)
    ensures
        r == occurs_at(v@, p@, i as int),
{
    if i > v.len() || p.len() > v.len() - i {
        return false;
    }
    let n = p.len();
    let end = i + n;
    for k in 0..n
        invariant
            n == p@.len(),
            end == i + n,
            i + n <= v@.len(),
            forall|m: int| 0 <= m < k ==> v@[i + m] == p@[m],
    {
        if v[i + k] != p[k] {
            assert(v@.subrange(i as int, i + n)[k as int] != p@[k as int]);
            return false;
        }
    }
    assert(v@.subrange(i as int, i + n) =~= p@);
    true
}

/// Whether `v` begins with `p`.
pub fn starts_with_exec(v: &[char], p: &[char]) -> (r: bool)
    ensures
        r == starts_with(v@, p@),
{
    occurs_at_exec(v, p, 0)
}

/// Whether `v` ends with `p`.
pub fn ends_with_exec(v: &[char], p: &[char]) -> (r: bool)
    ensures
        r == ends_with(v@, p@),
{
    if p.len() > v.len() {
        return false;
    }
    occurs_at_exec(v, p, v.len() - p.len())
}

/// Whether `p` occurs anywhere in `v`.
pub fn contains_exec(v: &[char], p: &[char]) -> (r: bool)
    ensures
        r == contains(v@, p@),
{
    if p.len() > v.len() {
        assert forall|i: int| !occurs_at(v@, p@, i) by {}
        return false;
    }
    let last = v.len() - p.len();
    let mut i: usize = 0;
    loop
        invariant
            last + p@.len() == v@.len(),
            i <= last,
            forall|k: int| 0 <= k < i ==> !occurs_at(v@, p@, k),
        decreases last - i,
    {
        if occurs_at_exec(v, p, i) {
            return true;
        }
        if i == last {
            assert forall|k: int| !occurs_at(v@, p@, k) by {
                if 0 <= k && k + p@.len() <= v@.len() {
                    assert(k < i || k == i);
                }
            }
            return false;
        }
        i = i + 1;
    }
}

/// Whether the text `s` contains the character `c`.
pub open spec fn has_char(s: Seq<char>, c: char) -> bool {
    exists|i: int| 0 <= i < s.len() && s[i] == c
}

/// Whether `v` contains the character `c`.
pub fn has_char_exec(v: &[char], c: char) -> (r: bool)
    ensures
        r == has_char(v@, c),
{
    let n = v.len();
    for i in 0..n
        invariant
            n == v@.len(),
            forall|k: int| 0 <= k < i ==> v@[k] != c,
    {
        if v[i] == c {
            return true;
        }
    }
    false
}

// ---------------------------------------------------------------------------
// Counting and replacing occurrences
// ---------------------------------------------------------------------------

/// `str::matches(p).count()`: the number of non-overlapping occurrences of
/// `p` in `s`, found from left to right. An empty pattern matches at every
/// character boundary.
pub open spec fn count_matches(s: Seq<char>, p: Seq<char>) -> nat
    decreases s.len(),
{
    if p.len() == 0 {
        s.len() + 1
    } else if s.len() < p.len() {
        0
    } else if s.subrange(0, p.len() as int) == p {
        1 + count_matches(s.subrange(p.len() as int, s.len() as int), p)
    } else {
        count_matches(s.drop_first(), p)
    }
}

proof fn lemma_count_step(s: Seq<char>, p: Seq<char>, i: int)
    requires
        p.len() > 0,
        0 <= i <= s.len(),
    ensures
        i + p.len() <= s.len() && occurs_at(s, p, i) ==> count_matches(s.subrange(i, s.len() as int), p)
            == 1 + count_matches(s.subrange(i + p.len(), s.len() as int), p),
        i + p.len() <= s.len() && !occurs_at(s, p, i) ==> count_matches(s.subrange(i, s.len() as int), p)
            == count_matches(s.subrange(i + 1, s.len() as int), p),
        i + p.len() > s.len() ==> count_matches(s.subrange(i, s.len() as int), p) == 0,
{
    let t = s.subrange(i, s.len() as int);
    if i + p.len() <= s.len() {
        assert(t.subrange(0, p.len() as int) =~= s.subrange(i, i + p.len()));
        assert(t.subrange(p.len() as int, t.len() as int) =~= s.subrange(i + p.len(), s.len() as int));
        assert(t.drop_first() =~= s.subrange(i + 1, s.len() as int));
    }
}

/// `x`, or `usize::MAX` where `x` is larger.
pub open spec fn clamp_usize(x: nat) -> nat {
    if x <= usize::MAX {
        x
    } else {
        usize::MAX as nat
    }
}

/// The number of non-overlapping occurrences of `p` in `v`. (Only a text of
/// `usize::MAX` characters could give more than `usize::MAX` matches.)
pub fn count_matches_exec(v: &[char], p: &[char]) -> (r: usize)
    ensures
        r == clamp_usize(count_matches(v@, p@)),
{
    let n = v.len();
    if p.len() == 0 {
        return if n < usize::MAX { n + 1 } else { n };
    }
    let mut count: usize = 0;
    let mut i: usize = 0;
    assert(v@.subrange(0, n as int) =~= v@);
    while i < n
        invariant
            n == v@.len(),
            p@.len() > 0,
            i <= n,
            count <= i,
            count_matches(v@, p@) == count + count_matches(v@.subrange(i as int, n as int), p@),
        decreases n - i,
    {
        proof {
            lemma_count_step(v@, p@, i as int);
        }
        if p.len() > n - i {
            i = n;
        } else if occurs_at_exec(v, p, i) {
            count = count + 1;
            i = i + p.len();
        } else {
            i = i + 1;
        }
    }
    assert(v@.subrange(n as int, n as int).len() == 0);
    count
}

/// `str::replace(from, to)`: every non-overlapping occurrence of `f` in `s`,
/// found from left to right, replaced by `t`. An empty `f` matches at every
/// character boundary.
pub open spec fn replace_all(s: Seq<char>, f: Seq<char>, t: Seq<char>) -> Seq<char>
    decreases s.len(),
{
    if f.len() == 0 {
        if s.len() == 0 {
            t
        } else {
            t + seq![s[0]] + replace_all(s.drop_first(), f, t)
        }
    } else if s.len() < f.len() {
        s
    } else if s.subrange(0, f.len() as int) == f {
        t + replace_all(s.subrange(f.len() as int, s.len() as int), f, t)
    } else {
        seq![s[0]] + replace_all(s.drop_first(), f, t)
    }
}

proof fn lemma_replace_step(s: Seq<char>, f: Seq<char>, t: Seq<char>, i: int)
    requires
        f.len() > 0,
        0 <= i <= s.len(),
    ensures
        i + f.len() <= s.len() && occurs_at(s, f, i) ==> replace_all(s.subrange(i, s.len() as int), f, t)
            == t + replace_all(s.subrange(i + f.len(), s.len() as int), f, t),
        i + f.len() <= s.len() && !occurs_at(s, f, i) ==> replace_all(s.subrange(i, s.len() as int), f, t)
            == seq![s[i]] + replace_all(s.subrange(i + 1, s.len() as int), f, t),
        i + f.len() > s.len() ==> replace_all(s.subrange(i, s.len() as int), f, t) == s.subrange(i, s.len() as int),
{
    let u = s.subrange(i, s.len() as int);
    if i + f.len() <= s.len() {
        assert(u.subrange(0, f.len() as int) =~= s.subrange(i, i + f.len()));
        assert(u.subrange(f.len() as int, u.len() as int) =~= s.subrange(i + f.len(), s.len() as int));
        assert(u.drop_first() =~= s.subrange(i + 1, s.len() as int));
    }
}

/// `v` with every occurrence of `f` replaced by `t`.
pub fn replace_all_exec(v: &[char], f: &[char], t: &[char]) -> (r: Vec<char>)
    ensures
        r@ == replace_all(v@, f@, t@),
{
    let n = v.len();
    let mut out: Vec<char> = Vec::new();
    let mut i: usize = 0;
    assert(v@.subrange(0, n as int) =~= v@);
    if f.len() == 0 {
        while i < n
            invariant
                n == v@.len(),
                f@.len() == 0,
                i <= n,
                replace_all(v@, f@, t@) == out@ + replace_all(v@.subrange(i as int, n as int), f@, t@),
            decreases n - i,
        {
            let ghost rest = v@.subrange(i as int, n as int);
            assert(rest.drop_first() =~= v@.subrange(i + 1, n as int));
            let ghost before = out@;
            append_chars(&mut out, t);
            out.push(v[i]);
            assert(out@ =~= before + (t@ + seq![v@[i as int]]));
            i = i + 1;
        }
        append_chars(&mut out, t);
        return out;
    }
    while i < n
        invariant
            n == v@.len(),
            f@.len() > 0,
            i <= n,
            replace_all(v@, f@, t@) == out@ + replace_all(v@.subrange(i as int, n as int), f@, t@),
        decreases n - i,
    {
        proof {
            lemma_replace_step(v@, f@, t@, i as int);
        }
        if f.len() > n - i {
            let rest = copy_range(v, i, n);
            append_chars(&mut out, &rest);
            i = n;
        } else if occurs_at_exec(v, f, i) {
            append_chars(&mut out, t);
            i = i + f.len();
        } else {
            out.push(v[i]);
            i = i + 1;
        }
    }
    out
}


// ---------------------------------------------------------------------------
// Lines
// ---------------------------------------------------------------------------

/// A line as `str::lines` yields it once its `\n` was removed: a final
/// `\r` is removed too.
pub open spec fn strip_cr(line: Seq<char>) -> Seq<char> {
    if line.len() > 0 && line.last() == '\r' {
        line.drop_last()
    } else {
        line
    }
}

/// The lines of `s` that follow a partial line `cur` already read.
pub open spec fn lines_from(s: Seq<char>, cur: Seq<char>) -> Seq<Seq<char>>
    decreases s.len(),
{
    if s.len() == 0 {
        if cur.len() == 0 {
            seq![]
        } else {
            seq![cur]
        }
    } else if s[0] == '\n' {
        seq![strip_cr(cur)] + lines_from(s.drop_first(), seq![])
    } else {
        lines_from(s.drop_first(), cur.push(s[0]))
    }
}

/// `str::lines`: the text split at `\n` and `\r\n`; a final line ending
/// yields no empty last line.
pub open spec fn lines(s: Seq<char>) -> Seq<Seq<char>> {
    lines_from(s, seq![])
}

/// The view of a vector of character vectors.
pub open spec fn views(v: Seq<Vec<char>>) -> Seq<Seq<char>> {
    v.map_values(|x: Vec<char>| x@)
}

/// The lines of `v`, as `str::lines` splits them.
pub fn lines_exec(v: &[char]) -> (r: Vec<Vec<char>>)
    ensures
        views(r@) == lines(v@),
{
    let n = v.len();
    let mut out: Vec<Vec<char>> = Vec::new();
    let mut cur: Vec<char> = Vec::new();
    let mut i: usize = 0;
    assert(v@.subrange(0, n as int) =~= v@);
    while i < n
        invariant
            n == v@.len(),
            i <= n,
            lines(v@) == views(out@) + lines_from(v@.subrange(i as int, n as int), cur@),
        decreases n - i,
    {
        let ghost rest = v@.subrange(i as int, n as int);
        assert(rest.drop_first() =~= v@.subrange(i + 1, n as int));
        if v[i] == '\n' {
            let line = if cur.len() > 0 && cur[cur.len() - 1] == '\r' {
                copy_range(&cur, 0, cur.len() - 1)
            } else {
                cur
            };
            assert(line@ == strip_cr(cur@));
            let ghost before = out@;
            out.push(line);
            assert(views(out@) =~= views(before) + seq![strip_cr(cur@)]);
            cur = Vec::new();
            assert(cur@ =~= seq![]);
        } else {
            cur.push(v[i]);
        }
        i = i + 1;
    }
    assert(v@.subrange(n as int, n as int).len() == 0);
    if cur.len() > 0 {
        let ghost before = out@;
        out.push(cur);
        assert(views(out@) =~= views(before) + seq![cur@]);
    } else {
        assert(views(out@) =~= views(out@) + seq![]);
    }
    out
}

// ---------------------------------------------------------------------------
// Decimal numerals
// ---------------------------------------------------------------------------

/// The character of a decimal digit.
pub open spec fn digit_char(d: nat) -> char
    recommends
        d < 10,
{
    (48 + d) as char
}

/// The decimal numeral of `n`, without sign or leading zeros.
pub open spec fn decimal(n: nat) -> Seq<char>
    decreases n,
{
    if n < 10 {
        seq![digit_char(n)]
    } else {
        decimal(n / 10).push(digit_char(n % 10))
    }
}

/// The decimal numeral of `n`.
pub fn decimal_exec(n: u64) -> (r: Vec<char>)
    ensures
        r@ == decimal(n as nat),
    decreases n,
{
    let d = (n % 10) as u8;
    let c = (48 + d) as char;
    if n < 10 {
        vec![c]
    } else {
        let mut r = decimal_exec(n / 10);
        r.push(c);
        r
    }
}

/// Whether a character is an ASCII decimal digit.
pub open spec fn is_digit(c: char) -> bool {
    48 <= (c as u32) <= 57
}

/// The value of a sequence of decimal digits.
pub open spec fn digits_value(s: Seq<char>) -> nat
    decreases s.len(),
{
    if s.len() == 0 {
        0
    } else {
        digits_value(s.drop_last()) * 10 + ((s.last() as u32) - 48) as nat
    }
}

/// A numeral without its optional leading `+`.
pub open spec fn unsigned_body(s: Seq<char>) -> Seq<char> {
    if s.len() > 0 && s[0] == '+' {
        s.drop_first()
    } else {
        s
    }
}

/// Whether every character of `s` is a decimal digit.
pub open spec fn all_digits(s: Seq<char>) -> bool {
    forall|i: int| 0 <= i < s.len() ==> is_digit(#[trigger] s[i])
}

/// What `str::parse` yields for an unsigned integer type without bound: an
/// optional `+` followed by at least one decimal digit and nothing else.
pub open spec fn parsed_unsigned(s: Seq<char>) -> Option<nat> {
    if unsigned_body(s).len() > 0 && all_digits(unsigned_body(s)) {
        Some(digits_value(unsigned_body(s)))
    } else {
        None
    }
}

proof fn lemma_digits_grow(s: Seq<char>, k: int, m: int)
    requires
        0 <= k <= m <= s.len(),
        all_digits(s),
    ensures
        digits_value(s.take(k)) <= digits_value(s.take(m)),
    decreases m - k,
{
    if k < m {
        lemma_digits_grow(s, k, m - 1);
        assert(s.take(m).drop_last() =~= s.take(m - 1));
    }
}

/// `str::parse::<u64>`: `None` where the text is no numeral or its value
/// exceeds `u64::MAX`.
pub fn parse_u64(v: &[char]) -> (r: Option<u64>)
    ensures
        r == (match parsed_unsigned(v@) {
            Some(x) => if x <= u64::MAX { Some(x as u64) } else { None },
            None => None,
        }),
{
    let n = v.len();
    let start: usize = if n > 0 && v[0] == '+' { 1 } else { 0 };
    let ghost body = unsigned_body(v@);
    assert(body =~= v@.subrange(start as int, n as int));
    if start == n {
        return None;
    }
    let mut acc: u64 = 0;
    let mut i = start;
    while i < n
        invariant
            start <= i <= n == v@.len(),
            start < n,
            body == v@.subrange(start as int, n as int),
            body == unsigned_body(v@),
            forall|k: int| start <= k < i ==> is_digit(v@[k]),
            acc == digits_value(body.take(i - start)),
        decreases n - i,
    {
        let c = v[i];
        let u = c as u32;
        if u < 48 || u > 57 {
            assert(!is_digit(body[i - start]));
            return None;
        }
        assert(body.take(i + 1 - start).drop_last() =~= body.take(i - start));
        let d = (u - 48) as u64;
        if acc > (u64::MAX - d) / 10 {
            proof {
                assert(acc * 10 + d > u64::MAX) by (nonlinear_arith)
                    requires
                        acc > (u64::MAX - d) / 10,
                        d <= 9,
                ;
                let ghost j = i + 1 - start;
                if all_digits(body) {
                    lemma_digits_grow(body, j, body.len() as int);
                    assert(body.take(body.len() as int) =~= body);
                }
            }
            return None;
        }
        acc = acc * 10 + d;
        i = i + 1;
    }
    assert(body.take(n - start) =~= body);
    Some(acc)
}


// ---------------------------------------------------------------------------
// Splitting at a separator character
// ---------------------------------------------------------------------------

/// The pieces of `s` after a partial piece `cur` already read.
pub open spec fn split_from(s: Seq<char>, sep: char, cur: Seq<char>) -> Seq<Seq<char>>
    decreases s.len(),
{
    if s.len() == 0 {
        seq![cur]
    } else if s[0] == sep {
        seq![cur] + split_from(s.drop_first(), sep, seq![])
    } else {
        split_from(s.drop_first(), sep, cur.push(s[0]))
    }
}

/// `str::split(sep)`: the pieces between the separators, empty ones
/// included; there is always at least one.
pub open spec fn split_on(s: Seq<char>, sep: char) -> Seq<Seq<char>> {
    split_from(s, sep, seq![])
}

proof fn lemma_split_from_nonempty(s: Seq<char>, sep: char, cur: Seq<char>)
    ensures
        split_from(s, sep, cur).len() >= 1,
    decreases s.len(),
{
    if s.len() > 0 {
        if s[0] == sep {
            lemma_split_from_nonempty(s.drop_first(), sep, seq![]);
        } else {
            lemma_split_from_nonempty(s.drop_first(), sep, cur.push(s[0]));
        }
    }
}

/// The pieces of `v` between the separators.
pub fn split_exec(v: &[char], sep: char) -> (r: Vec<Vec<char>>)
    ensures
        views(r@) == split_on(v@, sep),
        r@.len() >= 1,
{
    let n = v.len();
    let mut out: Vec<Vec<char>> = Vec::new();
    let mut cur: Vec<char> = Vec::new();
    let mut i: usize = 0;
    assert(v@.subrange(0, n as int) =~= v@);
    while i < n
        invariant
            n == v@.len(),
            i <= n,
            split_on(v@, sep) == views(out@) + split_from(v@.subrange(i as int, n as int), sep, cur@),
        decreases n - i,
    {
        let ghost rest = v@.subrange(i as int, n as int);
        assert(rest.drop_first() =~= v@.subrange(i + 1, n as int));
        if v[i] == sep {
            let ghost before = out@;
            let piece = cur;
            out.push(piece);
            assert(views(out@) =~= views(before) + seq![piece@]);
            cur = Vec::new();
            assert(cur@ =~= seq![]);
        } else {
            cur.push(v[i]);
        }
        i = i + 1;
    }
    assert(v@.subrange(n as int, n as int).len() == 0);
    let ghost before = out@;
    out.push(cur);
    assert(views(out@) =~= views(before) + seq![cur@]);
    proof {
        lemma_split_from_nonempty(v@, sep, seq![]);
    }
    out
}


/// What `str::parse` yields for an unsigned integer type whose largest
/// value is `max`.
pub open spec fn parsed_within(s: Seq<char>, max: nat) -> Option<nat> {
    match parsed_unsigned(s) {
        Some(x) => if x <= max {
            Some(x)
        } else {
            None
        },
        None => None,
    }
}

/// `str::parse::<usize>`.
pub fn parse_usize(s: &str) -> (r: Option<usize>)
    ensures
        match r {
            Some(x) => parsed_within(s@, usize::MAX as nat) == Some(x as nat),
            None => parsed_within(s@, usize::MAX as nat) is None,
        },
{
    match parse_u64(&chars_of(s)) {
        Some(x) => if x <= usize::MAX as u64 {
            Some(x as usize)
        } else {
            None
        },
        None => None,
    }
}

/// `str::parse::<u16>`.
pub fn parse_u16(s: &str) -> (r: Option<u16>)
    ensures
        match r {
            Some(x) => parsed_within(s@, u16::MAX as nat) == Some(x as nat),
            None => parsed_within(s@, u16::MAX as nat) is None,
        },
{
    match parse_u64(&chars_of(s)) {
        Some(x) => if x <= u16::MAX as u64 {
            Some(x as u16)
        } else {
            None
        },
        None => None,
    }
}

/// `str::parse::<u64>` on a string.
pub fn parse_u64_str(s: &str) -> (r: Option<u64>)
    ensures
        match r {
            Some(x) => parsed_within(s@, u64::MAX as nat) == Some(x as nat),
            None => parsed_within(s@, u64::MAX as nat) is None,
        },
{
    parse_u64(&chars_of(s))
}


/// Whether two strings hold the same text.
pub fn str_eq(a: &str, b: &str) -> (r: bool)
    ensures
        r == (a@ == b@),
{
    chars_eq(&chars_of(a), &chars_of(b))
}

/// Concatenates three texts.
pub fn concat3(a: &str, b: &str, c: &str) -> (r: String)
    ensures
        r@ == a@ + b@ + c@,
{
    let mut v = chars_of(a);
    append_chars(&mut v, &chars_of(b));
    append_chars(&mut v, &chars_of(c));
    string_of(&v)
}

/// The lower-cased, trimmed form of a text.
pub fn trim_lower(s: &str) -> (r: String)
    ensures
        r@ == lowercase(trim(s@)),
{
    string_of(&lowercase_chars(&trim_str(s)))
}


proof fn lemma_digit_char(d: nat)
    requires
        d < 10,
    ensures
        (digit_char(d) as u32) == 48 + d,
        is_digit(digit_char(d)),
        digit_char(d) != '+',
{
    if d == 0 {
        assert(((48 + 0) as char) as u32 == 48);
    } else if d == 1 {
        assert(((48 + 1) as char) as u32 == 49);
    } else if d == 2 {
        assert(((48 + 2) as char) as u32 == 50);
    } else if d == 3 {
        assert(((48 + 3) as char) as u32 == 51);
    } else if d == 4 {
        assert(((48 + 4) as char) as u32 == 52);
    } else if d == 5 {
        assert(((48 + 5) as char) as u32 == 53);
    } else if d == 6 {
        assert(((48 + 6) as char) as u32 == 54);
    } else if d == 7 {
        assert(((48 + 7) as char) as u32 == 55);
    } else if d == 8 {
        assert(((48 + 8) as char) as u32 == 56);
    } else {
        assert(((48 + 9) as char) as u32 == 57);
    }
    assert(('+' as u32) == 43);
}

proof fn lemma_decimal_digits(n: nat)
    ensures
        decimal(n).len() > 0,
        all_digits(decimal(n)),
        digits_value(decimal(n)) == n,
        decimal(n)[0] != '+',
    decreases n,
{
    if n < 10 {
        lemma_digit_char(n);
        assert(decimal(n).drop_last() =~= Seq::<char>::empty());
        assert(digits_value(decimal(n)) == digits_value(Seq::<char>::empty()) * 10 + ((digit_char(n) as u32) - 48) as nat);
    } else {
        lemma_decimal_digits(n / 10);
        lemma_digit_char(n % 10);
        let s = decimal(n / 10);
        assert(decimal(n).drop_last() =~= s);
        assert(decimal(n)[0] == s[0]);
        assert(decimal(n).last() == digit_char(n % 10));
        assert(digits_value(decimal(n)) == digits_value(s) * 10 + ((digit_char(n % 10) as u32) - 48) as nat);
        assert(n == (n / 10) * 10 + n % 10);
    }
}

/// Writing a number in decimal and parsing it back gives the number: the
/// numeral has no sign, at least one digit and only digits.
pub proof fn lemma_decimal_parses_back(n: nat)
    ensures
        parsed_unsigned(decimal(n)) == Some(n),
{
    lemma_decimal_digits(n);
    assert(unsigned_body(decimal(n)) == decimal(n));
}

} // verus!
