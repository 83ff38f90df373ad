//! Character-level helpers shared by the parsers and printers: decimal
//! numbers, searching for a character, and prefixes.

use vstd::prelude::*;

verus! {

/// The decimal digit character for `d` (`d < 10`).
pub open spec fn digit_char(d: nat) -> char {
    if d == 0 { '0' }
    else if d == 1 { '1' }
    else if d == 2 { '2' }
    else if d == 3 { '3' }
    else if d == 4 { '4' }
    else if d == 5 { '5' }
    else if d == 6 { '6' }
    else if d == 7 { '7' }
    else if d == 8 { '8' }
    else { '9' }
}

pub open spec fn is_digit(c: char) -> bool {
    '0' <= c && c <= '9'
}

/// Numeric value of a digit character.
pub open spec fn digit_value(c: char) -> nat {
    (c as int - '0' as int) as nat
}

pub open spec fn all_digits(s: Seq<char>) -> bool {
    forall|i: int| 0 <= i < s.len() ==> is_digit(#[trigger] s[i])
}

/// Value of a string of decimal digits, most significant first.
pub open spec fn digits_value(s: Seq<char>) -> nat
    decreases s.len(),
{
    if s.len() == 0 {
        0
    } else {
        digits_value(s.drop_last()) * 10 + digit_value(s.last())
    }
}

/// Shortest decimal representation of `n`.
pub open spec fn decimal(n: nat) -> Seq<char>
    decreases n,
{
    if n < 10 {
        seq![digit_char(n)]
    } else {
        decimal(n / 10).push(digit_char(n % 10))
    }
}

pub proof fn lemma_digit_char(d: nat)
    requires
        d < 10,
    ensures
        is_digit(digit_char(d)),
        digit_value(digit_char(d)) == d,
{
}

fn digit_str(d: u64) -> (r: &'static str)
    requires
        d < 10,
    ensures
        r@ == seq![digit_char(d as nat)],
{
    proof {
        reveal_strlit("0");
        reveal_strlit("1");
        reveal_strlit("2");
        reveal_strlit("3");
        reveal_strlit("4");
        reveal_strlit("5");
        reveal_strlit("6");
        reveal_strlit("7");
        reveal_strlit("8");
        reveal_strlit("9");
    }
    match d {
        0 => "0",
        1 => "1",
        2 => "2",
        3 => "3",
        4 => "4",
        5 => "5",
        6 => "6",
        7 => "7",
        8 => "8",
        _ => "9",
    }
}

/// Appends the decimal representation of `n` to `out`.
pub fn push_decimal(out: &mut String, n: u64)
    ensures
        final(out)@ == old(out)@ + decimal(n as nat),
    decreases n,
{
    if n >= 10 {
        push_decimal(out, n / 10);
    }
    out.append(digit_str(n % 10));
    proof {
        if n >= 10 {
            assert(old(out)@ + decimal((n / 10) as nat) + seq![digit_char((n % 10) as nat)]
                =~= old(out)@ + decimal(n as nat));
        } else {
            assert(old(out)@ + seq![digit_char(n as nat)] =~= old(out)@ + decimal(n as nat));
        }
    }
}


/// Whether `s` is a non-empty run of decimal digits whose value is at most `max`.
pub open spec fn decimal_within(s: Seq<char>, max: nat) -> bool {
    s.len() > 0 && all_digits(s) && digits_value(s) <= max
}

pub proof fn lemma_digits_value_prefix(s: Seq<char>, k: int)
    requires
        all_digits(s),
        0 <= k <= s.len(),
    ensures
        digits_value(s.take(k)) <= digits_value(s),
    decreases s.len(),
{
    if k < s.len() {
        let t = s.drop_last();
        assert(all_digits(t)) by {
            assert forall|i: int| 0 <= i < t.len() implies is_digit(#[trigger] t[i]) by {
                assert(t[i] == s[i]);
            }
        }
        lemma_digits_value_prefix(t, k);
        assert(t.take(k) =~= s.take(k));
    } else {
        assert(s.take(k) =~= s);
    }
}

/// Reads `s` as a decimal number no greater than `max`; `None` when `s` is
/// empty, holds a character other than a digit, or is too large.
pub fn parse_decimal(s: &str, max: u64) -> (r: Option<u64>)
    requires
        max >= 9,
    ensures
        r.is_some() == decimal_within(s@, max as nat),
        r matches Some(v) ==> v == digits_value(s@),
{
    let n = s.unicode_len();
    if n == 0 {
        return None;
    }
    let mut acc: u64 = 0;
    let mut i: usize = 0;
    while i < n
        invariant
            0 <= i <= n,
            n == s@.len(),
            max >= 9,
            all_digits(s@.take(i as int)),
            acc == digits_value(s@.take(i as int)),
            acc <= max,
        decreases n - i,
    {
        let c = s.get_char(i);
        let ghost t = s@.take(i + 1);
        assert(t.drop_last() =~= s@.take(i as int));
        if !('0' <= c && c <= '9') {
            assert(!all_digits(s@)) by {
                assert(!is_digit(s@[i as int]));
            }
            return None;
        }
        let d = (c as u32 - '0' as u32) as u64;
        assert(d == digit_value(t.last()));
        assert(d <= 9);
        if acc > (max - d) / 10 {
            assert(acc * 10 + d > max) by (nonlinear_arith)
                requires
                    acc > (max - d) / 10,
                    d <= 9,
                    max >= 9,
            ;
            assert(all_digits(s@) ==> digits_value(s@) > max) by {
                if all_digits(s@) {
                    lemma_digits_value_prefix(s@, i + 1);
                }
            }
            return None;
        }
        assert(acc * 10 + d <= max) by (nonlinear_arith)
            requires
                acc <= (max - d) / 10,
                d <= 9,
                max >= 9,
        ;
        acc = acc * 10 + d;
        i = i + 1;
        assert(all_digits(s@.take(i as int))) by {
            assert forall|j: int| 0 <= j < i implies is_digit(#[trigger] s@.take(i as int)[j]) by {
                if j < i - 1 {
                    assert(s@.take(i as int)[j] == s@.take(i - 1)[j]);
                }
            }
        }
    }
    assert(s@.take(n as int) =~= s@);
    Some(acc)
}

/// Position of the first `c` in `s`, or `s.len()` when `s` holds none.
pub open spec fn find(s: Seq<char>, c: char) -> nat
    decreases s.len(),
{
    if s.len() == 0 {
        0
    } else if s[0] == c {
        0
    } else {
        1 + find(s.drop_first(), c)
    }
}

pub proof fn lemma_find_is(s: Seq<char>, c: char, i: int)
    requires
        0 <= i <= s.len(),
        forall|j: int| 0 <= j < i ==> s[j] != c,
        i < s.len() ==> s[i] == c,
    ensures
        find(s, c) == i,
    decreases i,
{
    if i > 0 {
        lemma_find_is(s.drop_first(), c, i - 1);
    }
}

pub proof fn lemma_find_bounds(s: Seq<char>, c: char)
    ensures
        find(s, c) <= s.len(),
        find(s, c) < s.len() ==> s[find(s, c) as int] == c,
        forall|j: int| 0 <= j < find(s, c) ==> s[j] != c,
    decreases s.len(),
{
    if s.len() > 0 && s[0] != c {
        lemma_find_bounds(s.drop_first(), c);
        assert forall|j: int| 0 <= j < find(s, c) implies s[j] != c by {
            if j > 0 {
                assert(s[j] == s.drop_first()[j - 1]);
            }
        }
    }
}

/// Index of the first `c` in `s`, or its length.
pub fn find_char(s: &str, c: char) -> (r: usize)
    ensures
        r == find(s@, c),
{
    let n = s.unicode_len();
    let mut i: usize = 0;
    while i < n && s.get_char(i) != c
        invariant
            0 <= i <= n,
            n == s@.len(),
            forall|j: int| 0 <= j < i ==> s@[j] != c,
        decreases n - i,
    {
        i = i + 1;
    }
    proof {
        lemma_find_is(s@, c, i as int);
    }
    i
}


pub proof fn lemma_decimal(n: nat)
    ensures
        decimal(n).len() > 0,
        all_digits(decimal(n)),
        digits_value(decimal(n)) == n,
    decreases n,
{
    if n < 10 {
        lemma_digit_char(n);
        assert(decimal(n).drop_last() =~= Seq::<char>::empty());
        assert(digits_value(Seq::<char>::empty()) == 0);
    } else {
        lemma_decimal(n / 10);
        lemma_digit_char(n % 10);
        let d = decimal(n);
        assert(d.drop_last() =~= decimal(n / 10));
        assert(d.last() == digit_char(n % 10));
        assert((n / 10) * 10 + n % 10 == n) by (nonlinear_arith);
        assert forall|i: int| 0 <= i < d.len() implies is_digit(#[trigger] d[i]) by {
            if i < d.len() - 1 {
                assert(d[i] == decimal(n / 10)[i]);
            }
        }
    }
}

/// `s` does not hold `c`.
pub open spec fn lacks(s: Seq<char>, c: char) -> bool {
    forall|j: int| 0 <= j < s.len() ==> s[j] != c
}

pub proof fn lemma_decimal_lacks(n: nat, c: char)
    requires
        !is_digit(c),
    ensures
        lacks(decimal(n), c),
{
    lemma_decimal(n);
    assert forall|j: int| 0 <= j < decimal(n).len() implies decimal(n)[j] != c by {
        assert(is_digit(decimal(n)[j]));
    }
}

pub proof fn lemma_lacks_concat(a: Seq<char>, b: Seq<char>, c: char)
    requires
        lacks(a, c),
        lacks(b, c),
    ensures
        lacks(a + b, c),
{
    assert forall|j: int| 0 <= j < (a + b).len() implies (a + b)[j] != c by {
        if j >= a.len() {
            assert((a + b)[j] == b[j - a.len()]);
        }
    }
}

pub proof fn lemma_find_after(a: Seq<char>, c: char, b: Seq<char>)
    requires
        lacks(a, c),
    ensures
        find(a + seq![c] + b, c) == a.len(),
        (a + seq![c] + b).take(a.len() as int) == a,
        (a + seq![c] + b).skip(a.len() + 1int) == b,
{
    let s = a + seq![c] + b;
    assert forall|j: int| 0 <= j < a.len() implies s[j] != c by {
        assert(s[j] == a[j]);
    }
    lemma_find_is(s, c, a.len() as int);
    assert(s.take(a.len() as int) =~= a);
    assert(s.skip(a.len() + 1int) =~= b);
}

pub proof fn lemma_find_absent(a: Seq<char>, c: char)
    requires
        lacks(a, c),
    ensures
        find(a, c) == a.len(),
{
    lemma_find_is(a, c, a.len() as int);
}

/// `s` begins with `prefix`.
pub open spec fn has_prefix(s: Seq<char>, prefix: Seq<char>) -> bool {
    prefix.len() <= s.len() && s.take(prefix.len() as int) == prefix
}

/// Whether `s` begins with `prefix`.
pub fn starts_with(s: &str, prefix: &str) -> (r: bool)
    ensures
        r == has_prefix(s@, prefix@),
{
    let n = s.unicode_len();
    let m = prefix.unicode_len();
    if m > n {
        return false;
    }
    let mut i: usize = 0;
    while i < m
        invariant
            0 <= i <= m <= n,
            n == s@.len(),
            m == prefix@.len(),
            forall|j: int| 0 <= j < i ==> s@[j] == prefix@[j],
        decreases m - i,
    {
        if s.get_char(i) != prefix.get_char(i) {
            assert(s@.take(m as int)[i as int] != prefix@[i as int]);
            return false;
        }
        i = i + 1;
    }
    assert(s@.take(m as int) =~= prefix@);
    true
}

/// The text of `s` after `prefix`, which it begins with.
pub fn after_prefix(s: &str, prefix: &str) -> (r: String)
    requires
        has_prefix(s@, prefix@),
    ensures
        r@ == s@.skip(prefix@.len() as int),
{
    let n = s.unicode_len();
    let m = prefix.unicode_len();
    let rest = s.substring_char(m, n);
    assert(rest@ =~= s@.skip(prefix@.len() as int));
    String::from_str(rest)
}

/// A line without the carriage return that ended it.
pub open spec fn strip_cr(l: Seq<char>) -> Seq<char> {
    if l.len() > 0 && l.last() == '\r' {
        l.drop_last()
    } else {
        l
    }
}

/// The lines of `s`: pieces ended by `\n` (with a `\r` before it dropped),
/// and a last piece when `s` does not end with `\n`.
pub open spec fn text_lines(s: Seq<char>) -> Seq<Seq<char>>
    decreases s.len(),
{
    if s.len() == 0 {
        seq![]
    } else {
        let k = find(s, '\n');
        if k < s.len() {
            seq![strip_cr(s.take(k as int))] + text_lines(s.skip(k + 1int))
        } else {
            seq![s]
        }
    }
}

/// The texts of a list of strings.
pub open spec fn texts(v: Seq<String>) -> Seq<Seq<char>> {
    v.map_values(|l: String| l@)
}

proof fn lemma_text_lines_step(s: Seq<char>, start: int, i: int)
    requires
        0 <= start <= i < s.len(),
        forall|j: int| start <= j < i ==> s[j] != '\n',
        s[i] == '\n',
    ensures
        text_lines(s.skip(start)) == seq![strip_cr(s.subrange(start, i))] + text_lines(s.skip(i + 1)),
{
    let t = s.skip(start);
    assert forall|j: int| 0 <= j < i - start implies t[j] != '\n' by {
        assert(t[j] == s[start + j]);
    }
    assert(t[i - start] == s[i]);
    lemma_find_is(t, '\n', i - start);
    assert(t.take(i - start) =~= s.subrange(start, i));
    assert(t.skip(i - start + 1) =~= s.skip(i + 1));
}

proof fn lemma_text_lines_last(s: Seq<char>, start: int)
    requires
        0 <= start < s.len(),
        forall|j: int| start <= j < s.len() ==> s[j] != '\n',
    ensures
        text_lines(s.skip(start)) == seq![s.skip(start)],
{
    let t = s.skip(start);
    assert forall|j: int| 0 <= j < t.len() implies t[j] != '\n' by {
        assert(t[j] == s[start + j]);
    }
    lemma_find_is(t, '\n', t.len() as int);
}

/// Splits `s` into its lines.
pub fn split_lines(s: &str) -> (r: Vec<String>)
    ensures
        texts(r@) == text_lines(s@),
{
    let n = s.unicode_len();
    let mut out: Vec<String> = Vec::new();
    let mut start: usize = 0;
    let mut i: usize = 0;
    assert(s@.skip(0) =~= s@);
    assert(texts(out@) + text_lines(s@) =~= text_lines(s@));
    while i < n
        invariant
            0 <= start <= i <= n,
            n == s@.len(),
            text_lines(s@) == texts(out@) + text_lines(s@.skip(start as int)),
            forall|j: int| start <= j < i ==> s@[j] != '\n',
        decreases n - i,
    {
        if s.get_char(i) == '\n' {
            proof {
                lemma_text_lines_step(s@, start as int, i as int);
            }
            let line = if i > start && s.get_char(i - 1) == '\r' {
                s.substring_char(start, i - 1)
            } else {
                s.substring_char(start, i)
            };
            assert(line@ =~= strip_cr(s@.subrange(start as int, i as int)));
            let ghost before = out@;
            out.push(String::from_str(line));
            assert(texts(out@) =~= texts(before).push(line@));
            assert(texts(out@) + text_lines(s@.skip(i + 1)) =~= texts(before) + (
            seq![strip_cr(s@.subrange(start as int, i as int))] + text_lines(s@.skip(i + 1))));
            start = i + 1;
        }
        i = i + 1;
    }
    if start < n {
        proof {
            lemma_text_lines_last(s@, start as int);
        }
        let last = s.substring_char(start, n);
        assert(last@ =~= s@.skip(start as int));
        let ghost before = out@;
        out.push(String::from_str(last));
        assert(texts(out@) =~= texts(before).push(last@));
        assert(texts(out@) =~= texts(before) + seq![s@.skip(start as int)]);
    } else {
        assert(s@.skip(start as int) =~= Seq::<char>::empty());
        assert(texts(out@) + Seq::<Seq<char>>::empty() =~= texts(out@));
    }
    out
}

/// Position of the first element of `s` that satisfies `p`, or `s.len()`.
pub open spec fn first_index<A>(s: Seq<A>, p: spec_fn(A) -> bool) -> nat
    decreases s.len(),
{
    if s.len() == 0 {
        0
    } else if p(s[0]) {
        0
    } else {
        1 + first_index(s.drop_first(), p)
    }
}

pub proof fn lemma_first_index_is<A>(s: Seq<A>, p: spec_fn(A) -> bool, i: int)
    requires
        0 <= i <= s.len(),
        forall|j: int| 0 <= j < i ==> !p(#[trigger] s[j]),
        i < s.len() ==> p(s[i]),
    ensures
        first_index(s, p) == i,
    decreases i,
{
    if i > 0 {
        assert forall|j: int| 0 <= j < i - 1 implies !p(#[trigger] s.drop_first()[j]) by {
            assert(s.drop_first()[j] == s[j + 1]);
        }
        lemma_first_index_is(s.drop_first(), p, i - 1);
    }
}


/// A decimal number as printed: digits, at least one, and no leading zero
/// unless it is `0` itself.
pub open spec fn canonical_digits(d: Seq<char>) -> bool {
    &&& d.len() > 0
    &&& all_digits(d)
    &&& d.len() > 1 ==> d[0] != '0'
}

proof fn lemma_char_of_digit(c: char)
    requires
        is_digit(c),
    ensures
        digit_value(c) < 10,
        digit_char(digit_value(c)) == c,
{
    let k = c as int - '0' as int;
    assert(0 <= k < 10);
    if k == 0 { assert(c == '0'); } else if k == 1 { assert(c == '1'); } else if k == 2 { assert(c == '2'); }
    else if k == 3 { assert(c == '3'); } else if k == 4 { assert(c == '4'); } else if k == 5 { assert(c == '5'); }
    else if k == 6 { assert(c == '6'); } else if k == 7 { assert(c == '7'); } else if k == 8 { assert(c == '8'); }
    else { assert(c == '9'); }
}

proof fn lemma_digits_value_positive(d: Seq<char>)
    requires
        d.len() > 0,
        all_digits(d),
        d[0] != '0',
    ensures
        digits_value(d) >= 1,
    decreases d.len(),
{
    let t = d.drop_last();
    if d.len() == 1 {
        assert(t.len() == 0);
        assert(digits_value(t) == 0);
        assert(d.last() == d[0]);
    } else {
        assert(all_digits(t)) by {
            assert forall|i: int| 0 <= i < t.len() implies is_digit(#[trigger] t[i]) by {
                assert(t[i] == d[i]);
            }
        }
        lemma_digits_value_positive(t);
    }
}

/// A canonical decimal number prints back as itself.
pub proof fn lemma_decimal_of_digits(d: Seq<char>)
    requires
        canonical_digits(d),
    ensures
        decimal(digits_value(d)) == d,
    decreases d.len(),
{
    let t = d.drop_last();
    let c = d.last();
    assert(is_digit(c));
    lemma_char_of_digit(c);
    if d.len() == 1 {
        assert(digits_value(t) == 0);
        assert(d =~= seq![c]);
    } else {
        assert(all_digits(t)) by {
            assert forall|i: int| 0 <= i < t.len() implies is_digit(#[trigger] t[i]) by {
                assert(t[i] == d[i]);
            }
        }
        assert(t[0] == d[0]);
        lemma_digits_value_positive(t);
        lemma_decimal_of_digits(t);
        let n = digits_value(d);
        let v = digit_value(c);
        assert(n == digits_value(t) * 10 + v);
        assert(n / 10 == digits_value(t) && n % 10 == v) by (nonlinear_arith)
            requires
                n == digits_value(t) * 10 + v,
                v < 10,
        ;
        assert(n >= 10);
        assert(d =~= t.push(c));
    }
}

/// No number in `t` starts with a `0` followed by another digit.
pub open spec fn no_leading_zeros(t: Seq<char>) -> bool {
    forall|i: int|
        0 <= i && i + 1 < t.len() && #[trigger] t[i] == '0' && is_digit(t[i + 1]) ==> i > 0 && is_digit(t[i - 1])
}

/// A run of digits of `b` that does not follow a digit is canonical.
pub proof fn lemma_canonical_piece(b: Seq<char>, lo: int, hi: int)
    requires
        no_leading_zeros(b),
        0 <= lo < hi <= b.len(),
        all_digits(b.subrange(lo, hi)),
        lo == 0 || !is_digit(b[lo - 1]),
    ensures
        canonical_digits(b.subrange(lo, hi)),
{
    let p = b.subrange(lo, hi);
    if p.len() > 1 && p[0] == '0' {
        assert(b[lo] == '0');
        assert(is_digit(p[1]));
        assert(b[lo + 1] == p[1]);
    }
}

} // verus!
