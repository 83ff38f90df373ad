//! Integrity of downloaded artifacts: the SHA-256 digest of the staged bytes,
//! written in hex, must equal the published checksum, ignoring letter case.

use vstd::prelude::*;
use crate::error::UpdateError;

verus! {

/// The SHA-256 digest of `data`.
pub uninterp spec fn sha256_of(data: Seq<u8>) -> Seq<u8>;

/// Relies on sha2's `Sha256::digest`: the SHA-256 digest of the bytes, which
/// is 32 bytes long.
#[verifier::external_body]
fn sha256(data: &Vec<u8>) -> (r: Vec<u8>)
    ensures
        r@ == sha256_of(data@),
        r@.len() == 32,
{
    <sha2::Sha256 as sha2::Digest>::digest(data.as_slice()).to_vec()
}

/// The lower-case hex digit for `n` (`n < 16`).
pub open spec fn hex_digit(n: nat) -> char {
    if n < 10 {
        crate::text::digit_char(n)
    } else if n == 10 {
        'a'
    } else if n == 11 {
        'b'
    } else if n == 12 {
        'c'
    } else if n == 13 {
        'd'
    } else if n == 14 {
        'e'
    } else {
        'f'
    }
}

/// Lower-case hex text of `bytes`, two digits per byte, high digit first.
pub open spec fn hex_text(bytes: Seq<u8>) -> Seq<char>
    decreases bytes.len(),
{
    if bytes.len() == 0 {
        seq![]
    } else {
        hex_text(bytes.drop_last()) + seq![
            hex_digit((bytes.last() / 16) as nat),
            hex_digit((bytes.last() % 16) as nat),
        ]
    }
}

fn hex_str(n: u8) -> (r: &'static str)
    requires
        n < 16,
    ensures
        r@ == seq![hex_digit(n as nat)],
{
    proof {
        reveal_strlit("0");
        reveal_strlit("1");
        reveal_strlit("2");
        reveal_strlit("3");
        reveal_strlit("4");
        reveal_strlit("5");
        reveal_strlit("6");
        reveal_strlit("7");
        reveal_strlit("8");
        reveal_strlit("9");
        reveal_strlit("a");
        reveal_strlit("b");
        reveal_strlit("c");
        reveal_strlit("d");
        reveal_strlit("e");
        reveal_strlit("f");
    }
    match n {
        0 => "0",
        1 => "1",
        2 => "2",
        3 => "3",
        4 => "4",
        5 => "5",
        6 => "6",
        7 => "7",
        8 => "8",
        9 => "9",
        10 => "a",
        11 => "b",
        12 => "c",
        13 => "d",
        14 => "e",
        _ => "f",
    }
}

/// Lower-case hex text of `bytes`.
pub fn to_hex(bytes: &Vec<u8>) -> (r: String)
    ensures
        r@ == hex_text(bytes@),
{
    let mut out = String::new();
    let n = bytes.len();
    let mut i: usize = 0;
    assert(bytes@.take(0) =~= Seq::<u8>::empty());
    while i < n
        invariant
            0 <= i <= n,
            n == bytes@.len(),
            out@ == hex_text(bytes@.take(i as int)),
        decreases n - i,
    {
        let b = bytes[i];
        let ghost t = bytes@.take(i + 1);
        assert(t.drop_last() =~= bytes@.take(i as int));
        assert(t.last() == b);
        out.append(hex_str(b / 16));
        out.append(hex_str(b % 16));
        assert(out@ =~= hex_text(t));
        i = i + 1;
    }
    assert(bytes@.take(n as int) =~= bytes@);
    out
}

/// Code of a character with ASCII upper-case letters folded to lower case.
pub open spec fn folded(c: char) -> int {
    if 'A' <= c && c <= 'Z' {
        c as int + 32
    } else {
        c as int
    }
}

/// The two texts are equal when ASCII letter case is ignored.
pub open spec fn same_ignoring_case(a: Seq<char>, b: Seq<char>) -> bool {
    a.len() == b.len() && forall|i: int| 0 <= i < a.len() ==> folded(#[trigger] a[i]) == folded(b[i])
}

fn fold_char(c: char) -> (r: u32)
    ensures
        r == folded(c),
{
    let x = c as u32;
    if 'A' <= c && c <= 'Z' {
        x + 32
    } else {
        x
    }
}

/// Whether the two texts are equal when ASCII letter case is ignored.
pub fn eq_ignoring_case(a: &str, b: &str) -> (r: bool)
    ensures
        r == same_ignoring_case(a@, b@),
{
    let n = a.unicode_len();
    if n != b.unicode_len() {
        return false;
    }
    let mut i: usize = 0;
    while i < n
        invariant
            0 <= i <= n,
            n == a@.len(),
            n == b@.len(),
            forall|j: int| 0 <= j < i ==> folded(#[trigger] a@[j]) == folded(b@[j]),
        decreases n - i,
    {
        if fold_char(a.get_char(i)) != fold_char(b.get_char(i)) {
            return false;
        }
        i = i + 1;
    }
    true
}

/// Whether `digest`, written in hex, is the checksum `expected`.
pub fn digest_matches(digest: &Vec<u8>, expected: &str) -> (r: bool)
    ensures
        r == same_ignoring_case(hex_text(digest@), expected@),
{
    let hex = to_hex(digest);
    eq_ignoring_case(hex.as_str(), expected)
}

/// Whether the SHA-256 digest of `contents` is the checksum `expected`.
pub fn verify_artifact(contents: &Vec<u8>, expected: &str) -> (r: bool)
    ensures
        r == same_ignoring_case(hex_text(sha256_of(contents@)), expected@),
{
    let digest = sha256(contents);
    digest_matches(&digest, expected)
}

/// The verdict on a finished download: the staged bytes (`None` when the
/// transfer or the read-back failed) against the published checksum. On any
/// error the staged file is to be deleted.
pub fn check_download(contents: Option<Vec<u8>>, expected: &str) -> (r: Result<(), UpdateError>)
    ensures
        match contents {
            None => r == Err::<(), UpdateError>(UpdateError::DownloadFailed),
            Some(c) => if same_ignoring_case(hex_text(sha256_of(c@)), expected@) {
                r == Ok::<(), UpdateError>(())
            } else {
                r == Err::<(), UpdateError>(UpdateError::ChecksumMismatch)
            },
        },
{
    match contents {
        None => Err(UpdateError::DownloadFailed),
        Some(c) => if verify_artifact(&c, expected) {
            Ok(())
        } else {
            Err(UpdateError::ChecksumMismatch)
        },
    }
}

} // verus!
