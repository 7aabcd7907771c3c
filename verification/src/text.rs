//! Text primitives: decimal rendering and substring replacement over
//! sequences of characters.

use vstd::prelude::*;

verus! {

/// The character that writes the decimal digit `d`.
pub open spec fn digit_char(d: nat) -> char {
    if d == 0 {
        '0'
    } else if d == 1 {
        '1'
    } else if d == 2 {
        '2'
    } else if d == 3 {
        '3'
    } else if d == 4 {
        '4'
    } else if d == 5 {
        '5'
    } else if d == 6 {
        '6'
    } else if d == 7 {
        '7'
    } else if d == 8 {
        '8'
    } else {
        '9'
    }
}

/// Whether `c` is one of the ten decimal digits.
pub open spec fn is_digit(c: char) -> bool {
    '0' <= c && c <= '9'
}

/// The decimal representation of `n`, most significant digit first, without
/// leading zeros (`0` is written "0").
pub open spec fn decimal(n: nat) -> Seq<char>
    decreases n,
{
    if n < 10 {
        seq![digit_char(n)]
    } else {
        decimal(n / 10).push(digit_char(n % 10))
    }
}

/// A decimal representation is never empty and holds digits only.
pub proof fn lemma_decimal_digits(n: nat)
    ensures
        decimal(n).len() >= 1,
        forall|i: int| 0 <= i < decimal(n).len() ==> is_digit(#[trigger] decimal(n)[i]),
    decreases n,
{
    if n >= 10 {
        lemma_decimal_digits(n / 10);
    }
}

/// Appends one character to a string.
///
/// Wraps `String::push`, which appends the given character to the end of the
/// string.
#[verifier::external_body]
pub(crate) fn push_char(s: &mut String, c: char)
    ensures
        final(s)@ == old(s)@.push(c),
{
    s.push(c);
}

/// The character of a single decimal digit.
fn digit_to_char(d: u8) -> (c: char)
    requires
        d < 10,
    ensures
        c == digit_char(d as nat),
{
    if d == 0 {
        '0'
    } else if d == 1 {
        '1'
    } else if d == 2 {
        '2'
    } else if d == 3 {
        '3'
    } else if d == 4 {
        '4'
    } else if d == 5 {
        '5'
    } else if d == 6 {
        '6'
    } else if d == 7 {
        '7'
    } else if d == 8 {
        '8'
    } else {
        '9'
    }
}

/// Writes `n` in decimal.
pub fn decimal_string(n: u64) -> (s: String)
    ensures
        s@ == decimal(n as nat),
{
    let mut digits: Vec<char> = Vec::new();
    let mut rest: u64 = n;
    while rest >= 10
        invariant
            decimal(n as nat) == decimal(rest as nat) + digits@.reverse(),
        decreases rest,
    {
        let d: u8 = (rest % 10) as u8;
        let c = digit_to_char(d);
        digits.push(c);
        rest = rest / 10;
    }
    let mut s = String::new();
    let first = digit_to_char(rest as u8);
    push_char(&mut s, first);
    let mut i: usize = digits.len();
    while i > 0
        invariant
            i <= digits.len(),
            s@ == decimal(rest as nat) + digits@.reverse().subrange(0, digits.len() - i),
            decimal(n as nat) == decimal(rest as nat) + digits@.reverse(),
            rest < 10,
        decreases i,
    {
        i = i - 1;
        let c = digits[i];
        push_char(&mut s, c);
    }
    s
}

/// The characters of a string slice, in order.
pub fn chars_of(s: &str) -> (v: Vec<char>)
    ensures
        v@ == s@,
{
    let mut v: Vec<char> = Vec::new();
    for c in it: s.chars()
        invariant
            it.seq() == s@,
            v@ == it.seq().subrange(0, it.index() as int),
    {
        v.push(c);
    }
    v
}

/// Whether two string slices hold the same characters.
pub fn same_text(a: &str, b: &str) -> (r: bool)
    ensures
        r == (a@ == b@),
{
    let x = chars_of(a);
    let y = chars_of(b);
    if x.len() != y.len() {
        return false;
    }
    let mut i: usize = 0;
    while i < x.len()
        invariant
            i <= x.len(),
            x.len() == y.len(),
            x@ == a@,
            y@ == b@,
            x@.subrange(0, i as int) == y@.subrange(0, i as int),
        decreases x.len() - i,
    {
        if x[i] != y[i] {
            return false;
        }
        i += 1;
    }
    proof {
        assert(x@.subrange(0, x.len() as int) == x@);
        assert(y@.subrange(0, y.len() as int) == y@);
    }
    true
}

/// Whether `pattern` stands in `s` at position `i`.
pub open spec fn occurs_at(s: Seq<char>, pattern: Seq<char>, i: int) -> bool {
    0 <= i && i + pattern.len() <= s.len() && s.subrange(i, i + pattern.len()) == pattern
}

/// Whether `pattern` stands anywhere in `s`.
pub open spec fn occurs(s: Seq<char>, pattern: Seq<char>) -> bool {
    exists|i: int| occurs_at(s, pattern, i)
}

/// Whether no character of `a` is a character of `b`.
pub open spec fn disjoint_chars(a: Seq<char>, b: Seq<char>) -> bool {
    forall|i: int, j: int| 0 <= i < a.len() && 0 <= j < b.len() ==> a[i] != b[j]
}

/// `s` with every occurrence of `from` replaced by `to`, scanning from the
/// left and never looking again at what a replacement put in. An empty
/// `from` replaces nothing.
pub open spec fn replace_all(s: Seq<char>, from: Seq<char>, to: Seq<char>) -> Seq<char>
    decreases s.len(),
{
    if from.len() == 0 || s.len() < from.len() {
        s
    } else if s.subrange(0, from.len() as int) == from {
        to + replace_all(s.subrange(from.len() as int, s.len() as int), from, to)
    } else {
        seq![s[0]] + replace_all(s.subrange(1, s.len() as int), from, to)
    }
}

/// Whether `pattern` stands in `v` at index `i`.
fn matches_at(v: &Vec<char>, i: usize, pattern: &Vec<char>) -> (r: bool)
    requires
        i + pattern.len() <= v.len(),
    ensures
        r == (v@.subrange(i as int, i + pattern.len()) == pattern@),
{
    let mut k: usize = 0;
    while k < pattern.len()
        invariant
            k <= pattern.len(),
            i + pattern.len() <= v.len(),
            v@.subrange(i as int, i + k) == pattern@.subrange(0, k as int),
        decreases pattern.len() - k,
    {
        if v[i + k] != pattern[k] {
            return false;
        }
        k += 1;
    }
    proof {
        assert(pattern@.subrange(0, pattern.len() as int) == pattern@);
    }
    true
}

/// Replaces every occurrence of `from` in `s` by `to`.
pub fn replace_each(s: &str, from: &str, to: &str) -> (r: String)
    ensures
        r@ == replace_all(s@, from@, to@),
{
    let src = chars_of(s);
    let pat = chars_of(from);
    let n = src.len();
    let m = pat.len();
    let mut out = String::new();
    let mut i: usize = 0;
    proof {
        assert(src@.subrange(0, n as int) == s@);
    }
    while i < n
        invariant
            i <= n,
            n == src.len(),
            m == pat.len(),
            src@ == s@,
            pat@ == from@,
            replace_all(s@, from@, to@) == out@ + replace_all(
                src@.subrange(i as int, n as int),
                from@,
                to@,
            ),
        decreases n - i,
    {
        let ghost rest = src@.subrange(i as int, n as int);
        if m > 0 && m <= n - i && matches_at(&src, i, &pat) {
            proof {
                assert(rest.subrange(0, m as int) == src@.subrange(i as int, i + m));
                assert(rest.subrange(m as int, rest.len() as int) == src@.subrange(
                    i + m,
                    n as int,
                ));
            }
            out.append(to);
            i += m;
        } else {
            proof {
                assert(rest.subrange(1, rest.len() as int) == src@.subrange(i + 1, n as int));
                if m > 0 && m <= n - i {
                    assert(rest.subrange(0, m as int) == src@.subrange(i as int, i + m));
                }
            }
            push_char(&mut out, src[i]);
            i += 1;
        }
    }
    out
}

/// If the result of a replacement begins with `prefix`, and no character of
/// `prefix` can come from a replacement, then the text before the
/// replacement began with `prefix` too.
pub proof fn lemma_replace_reflects_prefix(
    s: Seq<char>,
    from: Seq<char>,
    to: Seq<char>,
    prefix: Seq<char>,
)
    requires
        to.len() > 0,
        disjoint_chars(prefix, to),
        prefix.is_prefix_of(replace_all(s, from, to)),
    ensures
        prefix.is_prefix_of(s),
    decreases s.len(),
{
    let out = replace_all(s, from, to);
    if prefix.len() == 0 || from.len() == 0 || s.len() < from.len() {
        // Nothing was replaced, or there is nothing to find.
    } else if s.subrange(0, from.len() as int) == from {
        // The result would begin with `to`, whose characters `prefix` lacks.
        assert(prefix[0] == out[0]);
    } else {
        // The first character was kept: look behind it.
        let tail = s.subrange(1, s.len() as int);
        let rest = replace_all(tail, from, to);
        let shorter = prefix.subrange(1, prefix.len() as int);
        assert(shorter.is_prefix_of(rest));
        assert(disjoint_chars(shorter, to));
        lemma_replace_reflects_prefix(tail, from, to, shorter);
        assert(prefix == s.subrange(0, prefix.len() as int)) by {
            assert(forall|k: int| 1 <= k < prefix.len() ==> prefix[k] == shorter[k - 1]);
        }
    }
}

/// A replacement brings in no occurrence of a pattern whose characters the
/// replacing text does not hold: where `pattern` stands in the result, it
/// stood in the text before at some place, or it is the replaced pattern
/// itself, which cannot be.
pub proof fn lemma_replace_adds_no_occurrence(
    s: Seq<char>,
    from: Seq<char>,
    to: Seq<char>,
    pattern: Seq<char>,
)
    requires
        to.len() > 0,
        pattern.len() > 0,
        disjoint_chars(pattern, to),
        !occurs(s, pattern) || pattern == from,
    ensures
        !occurs(replace_all(s, from, to), pattern),
    decreases s.len(),
{
    let out = replace_all(s, from, to);
    if occurs(out, pattern) {
        let k = choose|k: int| occurs_at(out, pattern, k);
        assert(out.subrange(k, k + pattern.len())[0] == pattern[0]);
        if from.len() == 0 || s.len() < from.len() {
            // Nothing was replaced: the pattern stood in `s` already.
        } else if s.subrange(0, from.len() as int) == from {
            // The result begins with `to`, in which the pattern cannot
            // begin: it stands in what follows.
            let tail = s.subrange(from.len() as int, s.len() as int);
            let rest = replace_all(tail, from, to);
            if k >= to.len() {
                assert(rest.subrange(k - to.len(), k - to.len() + pattern.len())
                    == out.subrange(k, k + pattern.len()));
                assert(occurs_at(rest, pattern, k - to.len()));
                if pattern != from {
                    lemma_no_occurrence_in_suffix(s, pattern, from.len() as int);
                }
                lemma_replace_adds_no_occurrence(tail, from, to, pattern);
            }
        } else {
            // The first character was kept.
            let tail = s.subrange(1, s.len() as int);
            let rest = replace_all(tail, from, to);
            if k == 0 {
                lemma_replace_reflects_prefix(s, from, to, pattern);
                assert(occurs_at(s, pattern, 0));
            } else {
                assert(rest.subrange(k - 1, k - 1 + pattern.len()) == out.subrange(
                    k,
                    k + pattern.len(),
                ));
                assert(occurs_at(rest, pattern, k - 1));
                if pattern != from {
                    lemma_no_occurrence_in_suffix(s, pattern, 1);
                }
                lemma_replace_adds_no_occurrence(tail, from, to, pattern);
            }
        }
    }
}

/// A pattern that stands nowhere in `s` stands nowhere in a suffix of `s`.
pub proof fn lemma_no_occurrence_in_suffix(s: Seq<char>, pattern: Seq<char>, start: int)
    requires
        0 <= start <= s.len(),
        !occurs(s, pattern),
    ensures
        !occurs(s.subrange(start, s.len() as int), pattern),
{
    let tail = s.subrange(start, s.len() as int);
    if occurs(tail, pattern) {
        let k = choose|k: int| occurs_at(tail, pattern, k);
        assert(s.subrange(start + k, start + k + pattern.len()) == tail.subrange(
            k,
            k + pattern.len(),
        ));
        assert(occurs_at(s, pattern, start + k));
    }
}

/// A text in which `from` stands nowhere is left as it is by a replacement
/// of `from`.
pub proof fn lemma_replace_without_occurrence(s: Seq<char>, from: Seq<char>, to: Seq<char>)
    requires
        !occurs(s, from),
    ensures
        replace_all(s, from, to) == s,
    decreases s.len(),
{
    if from.len() > 0 && s.len() >= from.len() {
        assert(!occurs_at(s, from, 0));
        let tail = s.subrange(1, s.len() as int);
        lemma_no_occurrence_in_suffix(s, from, 1);
        lemma_replace_without_occurrence(tail, from, to);
    }
}

/// A text in which the first character of `from` does not stand is left as
/// it is by a replacement of `from`.
pub proof fn lemma_replace_without_first_char(s: Seq<char>, from: Seq<char>, to: Seq<char>)
    requires
        from.len() > 0,
        forall|i: int| 0 <= i < s.len() ==> s[i] != from[0],
    ensures
        replace_all(s, from, to) == s,
    decreases s.len(),
{
    if s.len() >= from.len() {
        let tail = s.subrange(1, s.len() as int);
        lemma_replace_without_first_char(tail, from, to);
    }
}

/// Replacement passes over a leading text in which the first character of
/// `from` does not stand.
pub proof fn lemma_replace_skips_head(
    head: Seq<char>,
    tail: Seq<char>,
    from: Seq<char>,
    to: Seq<char>,
)
    requires
        from.len() > 0,
        forall|i: int| 0 <= i < head.len() ==> head[i] != from[0],
    ensures
        replace_all(head + tail, from, to) == head + replace_all(tail, from, to),
    decreases head.len(),
{
    let s = head + tail;
    if head.len() > 0 {
        let shorter = head.subrange(1, head.len() as int);
        assert(s.subrange(1, s.len() as int) == shorter + tail);
        lemma_replace_skips_head(shorter, tail, from, to);
    }
}

/// Replacement of a text that begins with `from` puts `to` in its place and
/// goes on behind it.
pub proof fn lemma_replace_at_head(tail: Seq<char>, from: Seq<char>, to: Seq<char>)
    requires
        from.len() > 0,
    ensures
        replace_all(from + tail, from, to) == to + replace_all(tail, from, to),
{
    let s = from + tail;
    assert(s.subrange(0, from.len() as int) == from);
    assert(s.subrange(from.len() as int, s.len() as int) == tail);
}

} // verus!
