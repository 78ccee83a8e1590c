//! Character-level text utilities: Unicode whitespace, trimming,
//! whitespace normalisation and decimal rendering.
use vstd::prelude::*;
use vstd::string::StringExecFns;

verus! {

broadcast use vstd::string::group_string_axioms;

/// Unicode `White_Space` property, the set that `char::is_whitespace` documents.
pub open spec fn is_white_space(c: char) -> bool {
    let u = c as u32;
    ||| 0x09 <= u <= 0x0D
    ||| u == 0x20
    ||| u == 0x85
    ||| u == 0xA0
    ||| u == 0x1680
    ||| 0x2000 <= u <= 0x200A
    ||| u == 0x2028
    ||| u == 0x2029
    ||| u == 0x202F
    ||| u == 0x205F
    ||| u == 0x3000
}

/// Whether `c` is Unicode whitespace.
pub fn is_whitespace(c: char) -> (b: bool)
    ensures
        b == is_white_space(c),
{
    let u = c as u32;
    (0x09 <= u && u <= 0x0D) || u == 0x20 || u == 0x85 || u == 0xA0 || u == 0x1680 || (0x2000
        <= u && u <= 0x200A) || u == 0x2028 || u == 0x2029 || u == 0x202F || u == 0x205F || u
        == 0x3000
}

/// Appends one character (std's `String::push`).
#[verifier::external_body]
pub(crate) fn push_char(s: &mut String, c: char)
    ensures
        final(s)@ == old(s)@.push(c),
{
    s.push(c);
}

/// The characters of `s`, in order.
pub fn chars_of(s: &str) -> (v: Vec<char>)
    ensures
        v@ == s@,
{
    let mut v: Vec<char> = Vec::new();
    for c in it: s.chars()
        invariant
            v@ == it.seq().take(it.index() as int),
            it.seq() == s@,
    {
        v.push(c);
    }
    v
}

/// The string made of `v[from..to]`.
pub fn string_from_range(v: &Vec<char>, from: usize, to: usize) -> (s: String)
    requires
        from <= to <= v@.len(),
    ensures
        s@ == v@.subrange(from as int, to as int),
{
    let mut s = String::new();
    let mut i = from;
    while i < to
        invariant
            from <= i <= to <= v@.len(),
            s@ == v@.subrange(from as int, i as int),
        decreases to - i,
    {
        push_char(&mut s, v[i]);
        assert(v@.subrange(from as int, i + 1) == v@.subrange(from as int, i as int).push(v@[i as int]));
        i = i + 1;
    }
    s
}

/// The string made of all of `v`.
pub fn string_from_chars(v: &Vec<char>) -> (s: String)
    ensures
        s@ == v@,
{
    let s = string_from_range(v, 0, v.len());
    assert(v@.subrange(0, v@.len() as int) == v@);
    s
}

/// A copy of `s` as an owned string.
pub fn to_owned_string(s: &str) -> (r: String)
    ensures
        r@ == s@,
{
    String::from_str(s)
}

/// `a` followed by `b`.
pub fn concat(a: &str, b: &str) -> (r: String)
    ensures
        r@ == a@ + b@,
{
    let mut r = String::from_str(a);
    r.append(b);
    r
}

// ---------------------------------------------------------------- trimming

/// `s` without its leading whitespace.
pub open spec fn trim_start_spec(s: Seq<char>) -> Seq<char>
    decreases s.len(),
{
    if s.len() > 0 && is_white_space(s[0]) {
        trim_start_spec(s.drop_first())
    } else {
        s
    }
}

/// `s` without its trailing whitespace.
pub open spec fn trim_end_spec(s: Seq<char>) -> Seq<char>
    decreases s.len(),
{
    if s.len() > 0 && is_white_space(s.last()) {
        trim_end_spec(s.drop_last())
    } else {
        s
    }
}

/// `s` without leading and trailing whitespace (std's `str::trim`).
pub open spec fn trim_spec(s: Seq<char>) -> Seq<char> {
    trim_end_spec(trim_start_spec(s))
}

/// `s` without its trailing copies of `c` (std's `str::trim_end_matches` with a char).
pub open spec fn trim_end_char_spec(s: Seq<char>, c: char) -> Seq<char>
    decreases s.len(),
{
    if s.len() > 0 && s.last() == c {
        trim_end_char_spec(s.drop_last(), c)
    } else {
        s
    }
}

/// Bounds `(start, end)` such that `v[start..end]` is `v` trimmed.
fn trim_bounds(v: &Vec<char>) -> (r: (usize, usize))
    ensures
        r.0 <= r.1 <= v@.len(),
        v@.subrange(r.0 as int, r.1 as int) == trim_spec(v@),
{
    let n = v.len();
    let mut start: usize = 0;
    assert(v@.subrange(0, n as int) == v@);
    while start < n && is_whitespace(v[start])
        invariant
            start <= n == v@.len(),
            trim_start_spec(v@) == trim_start_spec(v@.subrange(start as int, n as int)),
        decreases n - start,
    {
        assert(v@.subrange(start as int, n as int).drop_first() == v@.subrange(
            start + 1,
            n as int,
        ));
        start = start + 1;
    }
    let mut end: usize = n;
    while end > start && is_whitespace(v[end - 1])
        invariant
            start <= end <= n == v@.len(),
            trim_spec(v@) == trim_end_spec(v@.subrange(start as int, end as int)),
        decreases end,
    {
        assert(v@.subrange(start as int, end as int).drop_last() == v@.subrange(
            start as int,
            end - 1,
        ));
        end = end - 1;
    }
    (start, end)
}

/// `s` with leading and trailing whitespace removed.
pub fn trim(s: &str) -> (r: String)
    ensures
        r@ == trim_spec(s@),
{
    let v = chars_of(s);
    let (a, b) = trim_bounds(&v);
    string_from_range(&v, a, b)
}

/// Whether `s` is empty once trimmed.
pub fn is_blank(s: &str) -> (b: bool)
    ensures
        b == (trim_spec(s@).len() == 0),
{
    let v = chars_of(s);
    let (a, b) = trim_bounds(&v);
    a == b
}

/// `s` with trailing copies of `c` removed.
pub fn trim_end_char(s: &str, c: char) -> (r: String)
    ensures
        r@ == trim_end_char_spec(s@, c),
{
    let v = chars_of(s);
    let mut end = v.len();
    assert(v@.subrange(0, end as int) == v@);
    while end > 0 && v[end - 1] == c
        invariant
            end <= v@.len(),
            trim_end_char_spec(s@, c) == trim_end_char_spec(v@.subrange(0, end as int), c),
        decreases end,
    {
        assert(v@.subrange(0, end as int).drop_last() == v@.subrange(0, end - 1));
        end = end - 1;
    }
    string_from_range(&v, 0, end)
}

// ------------------------------------------------------------ comparisons

/// Whether `s` begins with `p`.
pub open spec fn starts_with_spec(s: Seq<char>, p: Seq<char>) -> bool {
    p.len() <= s.len() && s.take(p.len() as int) == p
}

/// Whether `p` occurs in `s` at position `i`.
pub open spec fn occurs_at(s: Seq<char>, p: Seq<char>, i: int) -> bool {
    0 <= i && i + p.len() <= s.len() && s.subrange(i, i + p.len()) == p
}

/// Whether `p` occurs somewhere in `s`.
pub open spec fn contains_spec(s: Seq<char>, p: Seq<char>) -> bool {
    exists|i: int| occurs_at(s, p, i)
}

/// Whether `s@` and `t@` agree on `t@.len()` characters from position `at`.
fn matches_at(s: &Vec<char>, t: &Vec<char>, at: usize) -> (b: bool)
    requires
        at + t@.len() <= s@.len(),
    ensures
        b == (s@.subrange(at as int, at + t@.len()) == t@),
{
    let sl = s.len();
    let mut j: usize = 0;
    while j < t.len()
        invariant
            j <= t@.len(),
            sl == s@.len(),
            at + t@.len() <= s@.len(),
            forall|k: int| 0 <= k < j ==> s@[at + k] == t@[k],
        decreases t@.len() - j,
    {
        if s[at + j] != t[j] {
            assert(s@.subrange(at as int, at + t@.len())[j as int] != t@[j as int]);
            return false;
        }
        j = j + 1;
    }
    assert(s@.subrange(at as int, at + t@.len()) =~= t@);
    true
}

/// Whether `s` begins with `p` (std's `str::starts_with`).
pub fn starts_with(s: &str, p: &str) -> (b: bool)
    ensures
        b == starts_with_spec(s@, p@),
{
    let sv = chars_of(s);
    let pv = chars_of(p);
    if pv.len() > sv.len() {
        return false;
    }
    let r = matches_at(&sv, &pv, 0);
    assert(sv@.subrange(0, pv@.len() as int) == sv@.take(pv@.len() as int));
    r
}

/// Whether `p` occurs in `s` (std's `str::contains` with a string pattern).
pub fn contains(s: &str, p: &str) -> (b: bool)
    ensures
        b == contains_spec(s@, p@),
{
    let sv = chars_of(s);
    let pv = chars_of(p);
    if pv.len() > sv.len() {
        assert forall|i: int| !occurs_at(s@, p@, i) by {}
        return false;
    }
    if pv.len() == 0 {
        assert(s@.subrange(0, 0) =~= p@);
        assert(occurs_at(s@, p@, 0));
        return true;
    }
    let last = sv.len() - pv.len();
    let sl = sv.len();
    let mut i: usize = 0;
    while i <= last
        invariant
            sl == sv@.len(),
            last + pv@.len() == sv@.len(),
            pv@.len() >= 1,
            sv@ == s@,
            pv@ == p@,
            forall|k: int| 0 <= k < i ==> !occurs_at(s@, p@, k),
        decreases last + 1 - i,
    {
        if matches_at(&sv, &pv, i) {
            assert(occurs_at(s@, p@, i as int));
            return true;
        }
        i = i + 1;
    }
    assert forall|k: int| !occurs_at(s@, p@, k) by {
        if 0 <= k && k + p@.len() <= s@.len() {
            assert(k < i);
        }
    }
    false
}

/// Whether the character `c` occurs in `s`.
pub fn contains_char(s: &str, c: char) -> (b: bool)
    ensures
        b == s@.contains(c),
{
    let v = chars_of(s);
    let mut i: usize = 0;
    while i < v.len()
        invariant
            i <= v@.len(),
            v@ == s@,
            forall|k: int| 0 <= k < i ==> v@[k] != c,
        decreases v@.len() - i,
    {
        if v[i] == c {
            assert(v@[i as int] == c);
            return true;
        }
        i = i + 1;
    }
    false
}

/// Whether `a` and `b` hold the same characters.
pub fn str_eq(a: &str, b: &str) -> (r: bool)
    ensures
        r == (a@ == b@),
{
    let x = String::from_str(a);
    let y = String::from_str(b);
    x == y
}

// ---------------------------------------------------- whitespace collapsing

/// The words of `s` (maximal runs of non-whitespace) joined by single spaces:
/// what `s.split_whitespace().collect::<Vec<_>>().join(" ")` yields.
/// Defined by extending the result one character at a time.
pub open spec fn normalize_spec(s: Seq<char>) -> Seq<char>
    decreases s.len(),
{
    if s.len() == 0 {
        Seq::empty()
    } else {
        let prev = s.drop_last();
        let p = normalize_spec(prev);
        let c = s.last();
        if is_white_space(c) {
            p
        } else if prev.len() > 0 && is_white_space(prev.last()) && p.len() > 0 {
            p.push(' ').push(c)
        } else {
            p.push(c)
        }
    }
}

/// Collapses every run of whitespace into one space and drops leading and
/// trailing whitespace.
pub fn normalize_text(input: &str) -> (r: String)
    ensures
        r@ == normalize_spec(input@),
{
    let v = chars_of(input);
    let mut out = String::new();
    let mut any = false;
    let mut i: usize = 0;
    while i < v.len()
        invariant
            i <= v@.len(),
            v@ == input@,
            out@ == normalize_spec(v@.take(i as int)),
            any == (out@.len() > 0),
        decreases v@.len() - i,
    {
        let c = v[i];
        let prev_ws = i > 0 && is_whitespace(v[i - 1]);
        let ghost prefix = v@.take(i as int);
        assert(v@.take(i + 1).drop_last() == prefix);
        assert(v@.take(i + 1).last() == c);
        if !is_whitespace(c) {
            if prev_ws && any {
                assert(prefix.last() == v@[i - 1]);
                push_char(&mut out, ' ');
            } else {
                assert(i > 0 ==> prefix.last() == v@[i - 1]);
            }
            push_char(&mut out, c);
            any = true;
        }
        i = i + 1;
    }
    assert(v@.take(v@.len() as int) == v@);
    out
}

/// Words separated by single spaces: no leading whitespace, and every
/// whitespace character is a plain space that follows a non-whitespace one.
pub open spec fn spaced_words(t: Seq<char>) -> bool {
    &&& t.len() > 0 ==> !is_white_space(t[0])
    &&& forall|i: int|
        0 <= i < t.len() && #[trigger] is_white_space(t[i]) ==> t[i] == ' ' && i > 0
            && !is_white_space(t[i - 1])
}

/// The shape `normalize_spec` produces: spaced words with no trailing whitespace.
pub open spec fn is_normalized(t: Seq<char>) -> bool {
    &&& spaced_words(t)
    &&& t.len() > 0 ==> !is_white_space(t.last())
}

proof fn lemma_spaced_words_prefix(t: Seq<char>)
    requires
        spaced_words(t),
        t.len() > 0,
    ensures
        spaced_words(t.drop_last()),
{
    let p = t.drop_last();
    assert forall|i: int| 0 <= i < p.len() && #[trigger] is_white_space(p[i]) implies p[i] == ' '
        && i > 0 && !is_white_space(p[i - 1]) by {
        assert(p[i] == t[i]);
        assert(is_white_space(t[i]));
    }
}

/// Normalising spaced words only drops a trailing space.
proof fn lemma_normalize_spaced_words(t: Seq<char>)
    requires
        spaced_words(t),
    ensures
        t.len() > 0 && is_white_space(t.last()) ==> normalize_spec(t) == t.drop_last(),
        !(t.len() > 0 && is_white_space(t.last())) ==> normalize_spec(t) == t,
    decreases t.len(),
{
    if t.len() > 0 {
        let prev = t.drop_last();
        let c = t.last();
        lemma_spaced_words_prefix(t);
        lemma_normalize_spaced_words(prev);
        let n = t.len() - 1;
        if is_white_space(c) {
            assert(is_white_space(t[n]));
            assert(!is_white_space(t[n - 1]));
            assert(prev.last() == t[n - 1]);
        } else if prev.len() > 0 && is_white_space(prev.last()) {
            let m = prev.len() - 1;
            assert(prev[m] == t[m]);
            assert(is_white_space(t[m]));
            assert(t[m] == ' ' && m > 0);
            assert(normalize_spec(prev) == prev.drop_last());
            assert(normalize_spec(prev).len() > 0);
            assert(prev.drop_last().push(' ') =~= prev);
            assert(prev.push(c) =~= t);
        } else {
            assert(prev.push(c) =~= t);
        }
    }
}

/// Whatever the input, the normalised text is spaced words without
/// leading or trailing whitespace.
pub proof fn lemma_normalize_is_normalized(s: Seq<char>)
    ensures
        is_normalized(normalize_spec(s)),
    decreases s.len(),
{
    if s.len() > 0 {
        let prev = s.drop_last();
        let p = normalize_spec(prev);
        let c = s.last();
        lemma_normalize_is_normalized(prev);
        if is_white_space(c) {
        } else if prev.len() > 0 && is_white_space(prev.last()) && p.len() > 0 {
            let r = p.push(' ').push(c);
            assert forall|i: int| 0 <= i < r.len() && #[trigger] is_white_space(r[i]) implies r[i]
                == ' ' && i > 0 && !is_white_space(r[i - 1]) by {
                if i < p.len() {
                    assert(r[i] == p[i]);
                    assert(is_white_space(p[i]));
                    assert(r[i - 1] == p[i - 1]);
                } else if i == p.len() {
                    assert(r[i - 1] == p.last());
                }
            }
            assert(r[0] == p[0]);
        } else {
            let r = p.push(c);
            assert forall|i: int| 0 <= i < r.len() && #[trigger] is_white_space(r[i]) implies r[i]
                == ' ' && i > 0 && !is_white_space(r[i - 1]) by {
                if i < p.len() {
                    assert(r[i] == p[i]);
                    assert(is_white_space(p[i]));
                    assert(r[i - 1] == p[i - 1]);
                }
            }
            if p.len() > 0 {
                assert(r[0] == p[0]);
            }
        }
    }
}

/// Normalising twice gives the same text as normalising once.
pub proof fn law_normalize_idempotent(s: Seq<char>)
    ensures
        normalize_spec(normalize_spec(s)) == normalize_spec(s),
{
    lemma_normalize_is_normalized(s);
    lemma_normalize_spaced_words(normalize_spec(s));
}

/// The non-whitespace characters of `s`, in order.
pub open spec fn non_white(s: Seq<char>) -> Seq<char>
    decreases s.len(),
{
    if s.len() == 0 {
        Seq::empty()
    } else if is_white_space(s.last()) {
        non_white(s.drop_last())
    } else {
        non_white(s.drop_last()).push(s.last())
    }
}

/// Whitespace is exactly the 25 code points of Unicode's `White_Space`
/// property (tab to carriage return, space, next line, no-break space,
/// ogham space mark, the en quad to hair space block, line and paragraph
/// separators, narrow no-break space, medium mathematical space and the
/// ideographic space); every other character, full-width punctuation such
/// as `，` (U+FF0C) included, is not whitespace.
pub proof fn law_white_space_is_unicode(c: char)
    ensures
        is_white_space(c) <==> {
            let u = c as u32;
            u == 0x0009
            || u == 0x000A
            || u == 0x000B
            || u == 0x000C
            || u == 0x000D
            || u == 0x0020
            || u == 0x0085
            || u == 0x00A0
            || u == 0x1680
            || u == 0x2000
            || u == 0x2001
            || u == 0x2002
            || u == 0x2003
            || u == 0x2004
            || u == 0x2005
            || u == 0x2006
            || u == 0x2007
            || u == 0x2008
            || u == 0x2009
            || u == 0x200A
            || u == 0x2028
            || u == 0x2029
            || u == 0x202F
            || u == 0x205F
            || u == 0x3000
        },
{
}

/// Normalising keeps every non-whitespace character of the input, in
/// order, and adds none: input and output agree once whitespace is removed.
pub proof fn law_normalize_keeps_non_white(s: Seq<char>)
    ensures
        non_white(normalize_spec(s)) == non_white(s),
    decreases s.len(),
{
    if s.len() > 0 {
        let prev = s.drop_last();
        let p = normalize_spec(prev);
        let c = s.last();
        law_normalize_keeps_non_white(prev);
        assert(is_white_space(' '));
        if is_white_space(c) {
            assert(normalize_spec(s) == p);
            assert(non_white(s) == non_white(prev));
        } else if prev.len() > 0 && is_white_space(prev.last()) && p.len() > 0 {
            let q = p.push(' ');
            assert(normalize_spec(s) == q.push(c));
            assert(q.push(c).drop_last() =~= q);
            assert(q.push(c).last() == c);
            assert(q.drop_last() =~= p);
            assert(q.last() == ' ');
            assert(non_white(q) == non_white(p));
            assert(non_white(q.push(c)) == non_white(q).push(c));
            assert(non_white(s) == non_white(prev).push(c));
        } else {
            assert(normalize_spec(s) == p.push(c));
            assert(p.push(c).drop_last() =~= p);
            assert(p.push(c).last() == c);
            assert(non_white(p.push(c)) == non_white(p).push(c));
            assert(non_white(s) == non_white(prev).push(c));
        }
    }
}

// ------------------------------------------------------------- numbers

/// The ASCII digit for `d < 10`.
pub open spec fn digit_char(d: nat) -> char {
    if d == 0 { '0' }
    else if d == 1 { '1' }
    else if d == 2 { '2' }
    else if d == 3 { '3' }
    else if d == 4 { '4' }
    else if d == 5 { '5' }
    else if d == 6 { '6' }
    else if d == 7 { '7' }
    else if d == 8 { '8' }
    else { '9' }
}

/// The number that a string of ASCII digits denotes.
pub open spec fn digits_value(d: Seq<char>) -> int
    decreases d.len(),
{
    if d.len() == 0 {
        0
    } else {
        digits_value(d.drop_last()) * 10 + ((d.last() as int) - 48)
    }
}

proof fn lemma_digit_char_code(d: nat)
    requires
        d < 10,
    ensures
        digit_char(d) as int == 48 + d,
{
}

/// The decimal rendering of `n` is a non-empty string of ASCII digits,
/// without a leading zero unless `n` is zero, and it denotes `n`.
pub proof fn law_decimal_denotes(n: nat)
    ensures
        decimal_spec(n).len() > 0,
        forall|i: int|
            0 <= i < decimal_spec(n).len() ==> 48 <= (#[trigger] decimal_spec(n)[i]) as int <= 57,
        n > 0 ==> decimal_spec(n)[0] != '0',
        digits_value(decimal_spec(n)) == n,
    decreases n,
{
    if n < 10 {
        lemma_digit_char_code(n);
        assert(decimal_spec(n) == seq![digit_char(n)]);
        assert(decimal_spec(n).drop_last() =~= Seq::<char>::empty());
        assert(decimal_spec(n).last() == digit_char(n));
        assert(digits_value(Seq::<char>::empty()) == 0);
        assert(digits_value(decimal_spec(n)) == digits_value(decimal_spec(n).drop_last()) * 10 + ((
        decimal_spec(n).last() as int) - 48));
    } else {
        law_decimal_denotes(n / 10);
        lemma_digit_char_code(n % 10);
        let d = decimal_spec(n / 10);
        let r = decimal_spec(n);
        assert(r == d.push(digit_char(n % 10)));
        assert(r.drop_last() =~= d);
        assert forall|i: int| 0 <= i < r.len() implies 48 <= (#[trigger] r[i]) as int <= 57 by {
            if i < d.len() {
                assert(r[i] == d[i]);
            }
        }
        assert(r[0] == d[0]);
        assert(r.last() == digit_char(n % 10));
        assert(digits_value(r) == digits_value(d) * 10 + ((r.last() as int) - 48));
        assert(digits_value(r) == (n / 10) * 10 + n % 10);
        assert((n / 10) * 10 + n % 10 == n) by (nonlinear_arith);
    }
}

/// Decimal rendering of `n`, most significant digit first, no leading zeros.
pub open spec fn decimal_spec(n: nat) -> Seq<char>
    decreases n,
{
    if n < 10 {
        seq![digit_char(n)]
    } else {
        decimal_spec(n / 10).push(digit_char(n % 10))
    }
}

fn digit(d: u64) -> (c: char)
    requires
        d < 10,
    ensures
        c == digit_char(d as nat),
{
    match d {
        0 => '0',
        1 => '1',
        2 => '2',
        3 => '3',
        4 => '4',
        5 => '5',
        6 => '6',
        7 => '7',
        8 => '8',
        _ => '9',
    }
}

/// Appends the decimal rendering of `n` to `s`.
pub fn push_decimal(s: &mut String, n: u64)
    ensures
        final(s)@ == old(s)@ + decimal_spec(n as nat),
    decreases n,
{
    if n < 10 {
        push_char(s, digit(n));
        assert(old(s)@.push(digit_char(n as nat)) == old(s)@ + seq![digit_char(n as nat)]);
    } else {
        push_decimal(s, n / 10);
        push_char(s, digit(n % 10));
        assert(old(s)@ + decimal_spec(n as nat / 10) + seq![digit_char(n as nat % 10)] == old(s)@
            + decimal_spec(n as nat / 10).push(digit_char(n as nat % 10)));
        assert(decimal_spec(n as nat) == decimal_spec(n as nat / 10).push(digit_char(n as nat % 10)));
        assert((old(s)@ + decimal_spec(n as nat / 10)).push(digit_char(n as nat % 10)) == old(s)@
            + decimal_spec(n as nat / 10).push(digit_char(n as nat % 10)));
    }
}

/// Decimal rendering of `n` (what `n.to_string()` yields).
pub fn decimal(n: u64) -> (s: String)
    ensures
        s@ == decimal_spec(n as nat),
{
    let mut s = String::new();
    push_decimal(&mut s, n);
    assert(Seq::<char>::empty() + decimal_spec(n as nat) == decimal_spec(n as nat));
    s
}

} // verus!
