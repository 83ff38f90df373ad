//! Versions of the form `[v]MAJOR.MINOR.PATCH[rN]`, where the optional `rN`
//! marks a test (release candidate) build.

use vstd::prelude::*;
use std::cmp::Ordering;
use crate::error::UpdateError;
use crate::text::{
    decimal, decimal_within, digits_value, find, find_char, lemma_find_bounds, parse_decimal,
    push_decimal, lemma_decimal, lemma_decimal_lacks, lacks,
    lemma_lacks_concat, lemma_find_after, lemma_find_absent, lemma_canonical_piece,
    lemma_decimal_of_digits, no_leading_zeros,
};

verus! {

/// A parsed version; `rc` is present on test builds.
#[derive(Clone, Copy, Debug, PartialEq, Eq, Structural, Ord)]
pub struct Version {
    pub major: u32,
    pub minor: u32,
    pub patch: u32,
    pub rc: Option<u32>,
}

/// Value of a version component: a decimal number that fits in 32 bits.
pub open spec fn component(s: Seq<char>) -> Option<u32> {
    if decimal_within(s, u32::MAX as nat) {
        Some(digits_value(s) as u32)
    } else {
        None
    }
}

/// `MAJOR.MINOR.PATCH`: exactly three components separated by dots.
pub open spec fn parse_triple(s: Seq<char>) -> Option<(u32, u32, u32)> {
    let a = find(s, '.');
    let rest = s.skip(a + 1int);
    let b = find(rest, '.');
    if a < s.len() && b < rest.len() {
        match (component(s.take(a as int)), component(rest.take(b as int)), component(rest.skip(b + 1int))) {
            (Some(x), Some(y), Some(z)) => Some((x, y, z)),
            _ => None,
        }
    } else {
        None
    }
}

/// The text after the optional `v` or `V` prefix.
pub open spec fn version_body(s: Seq<char>) -> Seq<char> {
    if s.len() > 0 && (s[0] == 'v' || s[0] == 'V') {
        s.drop_first()
    } else {
        s
    }
}

/// The version a string denotes, if any. The first `r` starts the test-build
/// number, which must be a component itself.
pub open spec fn parse_version(s: Seq<char>) -> Option<Version> {
    let body = version_body(s);
    let k = find(body, 'r');
    if k < body.len() {
        match (parse_triple(body.take(k as int)), component(body.skip(k + 1int))) {
            (Some(t), Some(rc)) => Some(Version { major: t.0, minor: t.1, patch: t.2, rc: Some(rc) }),
            _ => None,
        }
    } else {
        match parse_triple(body) {
            Some(t) => Some(Version { major: t.0, minor: t.1, patch: t.2, rc: None }),
            None => None,
        }
    }
}

/// The canonical text of a version: `MAJOR.MINOR.PATCH`, then `rN` on test builds.
pub open spec fn version_text(v: Version) -> Seq<char> {
    let triple = decimal(v.major as nat) + seq!['.'] + decimal(v.minor as nat) + seq!['.']
        + decimal(v.patch as nat);
    match v.rc {
        Some(n) => triple + seq!['r'] + decimal(n as nat),
        None => triple,
    }
}

/// Order of test-build numbers: no number comes before any number.
pub open spec fn rc_cmp(a: Option<u32>, b: Option<u32>) -> Ordering {
    match (a, b) {
        (None, None) => Ordering::Equal,
        (None, Some(_)) => Ordering::Less,
        (Some(_), None) => Ordering::Greater,
        (Some(x), Some(y)) => if x < y {
            Ordering::Less
        } else if x > y {
            Ordering::Greater
        } else {
            Ordering::Equal
        },
    }
}

pub open spec fn num_cmp(a: u32, b: u32) -> Ordering {
    if a < b {
        Ordering::Less
    } else if a > b {
        Ordering::Greater
    } else {
        Ordering::Equal
    }
}

/// The total order on versions: major, minor and patch first; on equal
/// numbers a test build comes after the stable build, and a higher test-build
/// number after a lower one.
pub open spec fn version_cmp(a: Version, b: Version) -> Ordering {
    if num_cmp(a.major, b.major) != Ordering::Equal {
        num_cmp(a.major, b.major)
    } else if num_cmp(a.minor, b.minor) != Ordering::Equal {
        num_cmp(a.minor, b.minor)
    } else if num_cmp(a.patch, b.patch) != Ordering::Equal {
        num_cmp(a.patch, b.patch)
    } else {
        rc_cmp(a.rc, b.rc)
    }
}

pub open spec fn version_lt(a: Version, b: Version) -> bool {
    version_cmp(a, b) == Ordering::Less
}

fn compare_u32(a: u32, b: u32) -> (r: Ordering)
    ensures
        r == num_cmp(a, b),
{
    if a < b {
        Ordering::Less
    } else if a > b {
        Ordering::Greater
    } else {
        Ordering::Equal
    }
}

impl PartialOrd for Version {
    fn partial_cmp(&self, other: &Version) -> (r: Option<Ordering>) {
        Some(self.compare(other))
    }
}

impl vstd::std_specs::cmp::PartialOrdSpecImpl for Version {
    open spec fn obeys_partial_cmp_spec() -> bool {
        true
    }

    open spec fn partial_cmp_spec(&self, other: &Version) -> Option<Ordering> {
        Some(version_cmp(*self, *other))
    }
}

impl Version {
    /// Parses `[v]MAJOR.MINOR.PATCH[rN]`; one leading `v` or `V` is ignored.
    pub fn parse(s: &str) -> (r: Result<Version, UpdateError>)
        ensures
            match parse_version(s@) {
                Some(v) => r == Ok::<Version, UpdateError>(v),
                None => r == Err::<Version, UpdateError>(UpdateError::InvalidVersionFormat),
            },
    {
        let len = s.unicode_len();
        let body = if len > 0 && (s.get_char(0) == 'v' || s.get_char(0) == 'V') {
            s.substring_char(1, len)
        } else {
            s
        };
        assert(body@ =~= version_body(s@));
        let n = body.unicode_len();
        let k = find_char(body, 'r');
        if k < n {
            let triple = parse_triple_exec(body.substring_char(0, k));
            let rc = parse_component(body.substring_char(k + 1, n));
            proof {
                assert(body@.subrange(0, k as int) =~= body@.take(k as int));
                assert(body@.subrange(k + 1, n as int) =~= body@.skip(k + 1));
            }
            match (triple, rc) {
                (Some(t), Some(rc)) => Ok(Version { major: t.0, minor: t.1, patch: t.2, rc: Some(rc) }),
                _ => Err(UpdateError::InvalidVersionFormat),
            }
        } else {
            match parse_triple_exec(body) {
                Some(t) => Ok(Version { major: t.0, minor: t.1, patch: t.2, rc: None }),
                None => Err(UpdateError::InvalidVersionFormat),
            }
        }
    }

    /// The canonical text, e.g. `0.1.3` or `0.1.3r5`.
    pub fn to_string(&self) -> (r: String)
        ensures
            r@ == version_text(*self),
    {
        proof {
            reveal_strlit(".");
            reveal_strlit("r");
        }
        let mut out = String::new();
        push_decimal(&mut out, self.major as u64);
        out.append(".");
        push_decimal(&mut out, self.minor as u64);
        out.append(".");
        push_decimal(&mut out, self.patch as u64);
        match self.rc {
            Some(n) => {
                out.append("r");
                push_decimal(&mut out, n as u64);
            },
            None => {},
        }
        proof {
            assert(out@ =~= version_text(*self));
        }
        out
    }

    /// Where `self` stands relative to `other` in the version order.
    pub fn compare(&self, other: &Version) -> (r: Ordering)
        ensures
            r == version_cmp(*self, *other),
    {
        let c = compare_u32(self.major, other.major);
        if !matches!(c, Ordering::Equal) {
            return c;
        }
        let c = compare_u32(self.minor, other.minor);
        if !matches!(c, Ordering::Equal) {
            return c;
        }
        let c = compare_u32(self.patch, other.patch);
        if !matches!(c, Ordering::Equal) {
            return c;
        }
        match (self.rc, other.rc) {
            (None, None) => Ordering::Equal,
            (None, Some(_)) => Ordering::Less,
            (Some(_), None) => Ordering::Greater,
            (Some(x), Some(y)) => compare_u32(x, y),
        }
    }

    /// Whether `self` comes after `other` in the version order.
    pub fn is_newer_than(&self, other: &Version) -> (r: bool)
        ensures
            r == version_lt(*other, *self),
    {
        matches!(other.compare(self), Ordering::Less)
    }

    /// A stable build carries no test-build number.
    pub fn is_stable(&self) -> (r: bool)
        ensures
            r == self.rc.is_none(),
    {
        self.rc.is_none()
    }

    /// A test build carries a test-build number.
    pub fn is_test(&self) -> (r: bool)
        ensures
            r == self.rc.is_some(),
    {
        self.rc.is_some()
    }

    /// Versions with the same major number are compatible.
    pub fn is_compatible_with(&self, other: &Version) -> (r: bool)
        ensures
            r == (self.major == other.major),
    {
        self.major == other.major
    }

    /// The same version without its test-build number.
    pub fn base_version(&self) -> (r: Version)
        ensures
            r == (Version { major: self.major, minor: self.minor, patch: self.patch, rc: None }),
    {
        Version { major: self.major, minor: self.minor, patch: self.patch, rc: None }
    }
}

fn parse_component(s: &str) -> (r: Option<u32>)
    ensures
        r == component(s@),
{
    match parse_decimal(s, 0xffff_ffff) {
        Some(v) => Some(v as u32),
        None => None,
    }
}

fn parse_triple_exec(s: &str) -> (r: Option<(u32, u32, u32)>)
    ensures
        r == parse_triple(s@),
{
    let n = s.unicode_len();
    let a = find_char(s, '.');
    proof {
        lemma_find_bounds(s@, '.');
    }
    if a >= n {
        return None;
    }
    let rest = s.substring_char(a + 1, n);
    proof {
        assert(rest@ =~= s@.skip(a + 1));
    }
    let m = rest.unicode_len();
    let b = find_char(rest, '.');
    proof {
        lemma_find_bounds(rest@, '.');
    }
    if b >= m {
        return None;
    }
    let x = parse_component(s.substring_char(0, a));
    let y = parse_component(rest.substring_char(0, b));
    let z = parse_component(rest.substring_char(b + 1, m));
    proof {
        assert(s@.subrange(0, a as int) =~= s@.take(a as int));
        assert(rest@.subrange(0, b as int) =~= rest@.take(b as int));
        assert(rest@.subrange(b + 1, m as int) =~= rest@.skip(b + 1));
    }
    match (x, y, z) {
        (Some(x), Some(y), Some(z)) => Some((x, y, z)),
        _ => None,
    }
}


proof fn lemma_component_of_decimal(n: u32)
    ensures
        component(decimal(n as nat)) == Some(n),
{
    lemma_decimal(n as nat);
}

/// The text of `major.minor.patch`, and what parsing it gives.
proof fn lemma_triple_text(x: u32, y: u32, z: u32)
    ensures
        ({
            let t = decimal(x as nat) + seq!['.'] + decimal(y as nat) + seq!['.'] + decimal(z as nat);
            &&& parse_triple(t) == Some((x, y, z))
            &&& lacks(t, 'r')
            &&& lacks(t, 'v')
            &&& lacks(t, 'V')
        }),
{
    let d1 = decimal(x as nat);
    let d2 = decimal(y as nat);
    let d3 = decimal(z as nat);
    let t = d1 + seq!['.'] + d2 + seq!['.'] + d3;
    let rest = d2 + seq!['.'] + d3;
    lemma_decimal_lacks(x as nat, '.');
    lemma_decimal_lacks(y as nat, '.');
    lemma_component_of_decimal(x);
    lemma_component_of_decimal(y);
    lemma_component_of_decimal(z);
    assert(t =~= d1 + seq!['.'] + rest);
    lemma_find_after(d1, '.', rest);
    lemma_find_after(d2, '.', d3);
    assert(t.skip(d1.len() + 1int) == rest);
    lemma_lacks_dotted(x, y, z, 'r');
    lemma_lacks_dotted(x, y, z, 'v');
    lemma_lacks_dotted(x, y, z, 'V');
}

proof fn lemma_lacks_dotted(x: u32, y: u32, z: u32, c: char)
    requires
        c != '.',
        !crate::text::is_digit(c),
    ensures
        lacks(decimal(x as nat) + seq!['.'] + decimal(y as nat) + seq!['.'] + decimal(z as nat), c),
{
    let dot = seq!['.'];
    assert(lacks(dot, c));
    lemma_decimal_lacks(x as nat, c);
    lemma_decimal_lacks(y as nat, c);
    lemma_decimal_lacks(z as nat, c);
    lemma_lacks_concat(decimal(x as nat), dot, c);
    lemma_lacks_concat(decimal(x as nat) + dot, decimal(y as nat), c);
    lemma_lacks_concat(decimal(x as nat) + dot + decimal(y as nat), dot, c);
    lemma_lacks_concat(decimal(x as nat) + dot + decimal(y as nat) + dot, decimal(z as nat), c);
}

/// The version order is total: of two versions that are not below one
/// another, the second is below or equal to the first, and a version below
/// one that is not above a third is below the third.
pub proof fn lemma_version_order(a: Version, b: Version, c: Version)
    ensures
        !version_lt(b, a) ==> version_lt(a, b) || a == b,
        !version_lt(b, a) && version_lt(b, c) ==> version_lt(a, c),
{
}

/// Parsing the canonical text of a version gives the version back.
pub proof fn lemma_version_text_parses(v: Version)
    ensures
        parse_version(version_text(v)) == Some(v),
{
    let t = version_text(v);
    let triple = decimal(v.major as nat) + seq!['.'] + decimal(v.minor as nat) + seq!['.']
        + decimal(v.patch as nat);
    lemma_triple_text(v.major, v.minor, v.patch);
    lemma_decimal(v.major as nat);
    assert(t[0] == triple[0]);
    assert(triple[0] == decimal(v.major as nat)[0]);
    assert(crate::text::is_digit(t[0]));
    assert(version_body(t) == t);
    match v.rc {
        Some(n) => {
            lemma_find_after(triple, 'r', decimal(n as nat));
            lemma_component_of_decimal(n);
        },
        None => {
            lemma_find_absent(triple, 'r');
        },
    }
}

/// Every valid version string `s` round-trips: printing the version it
/// denotes and parsing that text again yields the same version.
pub proof fn version_round_trip(s: Seq<char>)
    requires
        parse_version(s) is Some,
    ensures
        parse_version(version_text(parse_version(s).unwrap())) == parse_version(s),
{
    lemma_version_text_parses(parse_version(s).unwrap());
}


proof fn lemma_component_text(b: Seq<char>, lo: int, hi: int)
    requires
        no_leading_zeros(b),
        0 <= lo <= hi <= b.len(),
        component(b.subrange(lo, hi)) is Some,
        lo == 0 || !crate::text::is_digit(b[lo - 1]),
    ensures
        decimal(component(b.subrange(lo, hi)).unwrap() as nat) == b.subrange(lo, hi),
{
    lemma_canonical_piece(b, lo, hi);
    lemma_decimal_of_digits(b.subrange(lo, hi));
}

proof fn lemma_triple_is_text(b: Seq<char>, m: int)
    requires
        no_leading_zeros(b),
        0 <= m <= b.len(),
        parse_triple(b.take(m)) is Some,
    ensures
        ({
            let t = parse_triple(b.take(m)).unwrap();
            decimal(t.0 as nat) + seq!['.'] + decimal(t.1 as nat) + seq!['.'] + decimal(t.2 as nat)
                == b.take(m)
        }),
{
    let tt = b.take(m);
    let a = find(tt, '.') as int;
    lemma_find_bounds(tt, '.');
    let rest = tt.skip(a + 1);
    let c = find(rest, '.') as int;
    lemma_find_bounds(rest, '.');
    assert(tt[a] == '.' && b[a] == '.');
    assert(rest[c] == '.' && b[a + 1 + c] == '.');
    assert(tt.take(a) =~= b.subrange(0, a));
    assert(rest.take(c) =~= b.subrange(a + 1, a + 1 + c));
    assert(rest.skip(c + 1) =~= b.subrange(a + 2 + c, m));
    lemma_component_text(b, 0, a);
    lemma_component_text(b, a + 1, a + 1 + c);
    lemma_component_text(b, a + 2 + c, m);
    assert(tt =~= b.subrange(0, a) + seq!['.'] + b.subrange(a + 1, a + 1 + c) + seq!['.']
        + b.subrange(a + 2 + c, m));
}

/// Printing a parsed version gives back the text after its optional `v`,
/// when no number in that text has a leading zero.
pub proof fn version_text_is_input(s: Seq<char>)
    requires
        parse_version(s) is Some,
        no_leading_zeros(version_body(s)),
    ensures
        version_text(parse_version(s).unwrap()) == version_body(s),
{
    let b = version_body(s);
    let k = find(b, 'r') as int;
    lemma_find_bounds(b, 'r');
    if k < b.len() {
        lemma_triple_is_text(b, k);
        assert(b.skip(k + 1) =~= b.subrange(k + 1, b.len() as int));
        lemma_component_text(b, k + 1, b.len() as int);
        assert(b =~= b.take(k) + seq!['r'] + b.skip(k + 1));
    } else {
        assert(b.take(b.len() as int) =~= b);
        lemma_triple_is_text(b, b.len() as int);
    }
}

} // verus!
