//! The line protocol between the host application and the updater program.
//! The updater decides what a manifest means for the running version and
//! prints marker lines; the host reads those lines back.

use vstd::prelude::*;
use crate::error::UpdateError;
use crate::manifest::{entry_index, UpdateManifest, VersionInfo};
use crate::text::{
    after_prefix, decimal, decimal_within, digits_value, find, find_char, first_index,
    has_prefix, lacks, lemma_decimal, lemma_decimal_lacks, lemma_find_absent, lemma_find_after,
    lemma_first_index_is, parse_decimal, push_decimal, split_lines, starts_with, strip_cr,
    text_lines, texts,
};
use crate::version::{parse_version, version_lt, Version};

verus! {

/// The minimal description of an available update.
#[derive(Debug)]
pub struct UpdateInfo {
    pub version: String,
    pub url: String,
    pub checksum: String,
    pub size_bytes: u64,
    pub breaking_changes: bool,
}

impl Clone for UpdateInfo {
    fn clone(&self) -> (r: Self)
        ensures
            r == *self,
    {
        UpdateInfo {
            version: self.version.clone(),
            url: self.url.clone(),
            checksum: self.checksum.clone(),
            size_bytes: self.size_bytes,
            breaking_changes: self.breaking_changes,
        }
    }
}

/// What a manifest means for the running version.
#[derive(Debug)]
pub enum CheckReport {
    UpToDate,
    Available { info: UpdateInfo, is_test: bool },
}

/// `info` describes the manifest entry `entry` of `version`.
pub open spec fn describes(info: UpdateInfo, version: Seq<char>, entry: VersionInfo) -> bool {
    &&& info.version@ == version
    &&& info.url@ == entry.download_url@
    &&& info.checksum@ == entry.checksum_sha256@
    &&& info.size_bytes == entry.file_size_bytes
    &&& info.breaking_changes == entry.breaking_changes
}

/// Compares the manifest's latest version with `current_version`. Newer:
/// the manifest's entry for it (which must exist) and whether it is a test
/// build. Otherwise: up to date. Either version string invalid: an error.
pub fn evaluate_manifest(manifest: &UpdateManifest, current_version: &str) -> (r: Result<
    CheckReport,
    UpdateError,
>)
    ensures
        match (parse_version(current_version@), parse_version(manifest.latest_version@)) {
            (Some(current), Some(latest)) => if version_lt(current, latest) {
                let k = entry_index(manifest.versions@, manifest.latest_version@);
                if k < manifest.versions@.len() {
                    r matches Ok(CheckReport::Available { info, is_test }) && describes(
                        info,
                        manifest.latest_version@,
                        manifest.versions@[k as int].1,
                    ) && is_test == latest.rc.is_some()
                } else {
                    r == Err::<CheckReport, UpdateError>(UpdateError::InconsistentManifest)
                }
            } else {
                r == Ok::<CheckReport, UpdateError>(CheckReport::UpToDate)
            },
            _ => r == Err::<CheckReport, UpdateError>(UpdateError::InvalidVersionFormat),
        },
{
    let current = match Version::parse(current_version) {
        Ok(v) => v,
        Err(e) => return Err(e),
    };
    let latest = match Version::parse(manifest.latest_version.as_str()) {
        Ok(v) => v,
        Err(e) => return Err(e),
    };
    if !latest.is_newer_than(&current) {
        return Ok(CheckReport::UpToDate);
    }
    match manifest.version_info(&manifest.latest_version) {
        Some(entry) => {
            let info = UpdateInfo {
                version: manifest.latest_version.clone(),
                url: entry.download_url.clone(),
                checksum: entry.checksum_sha256.clone(),
                size_bytes: entry.file_size_bytes,
                breaking_changes: entry.breaking_changes,
            };
            Ok(CheckReport::Available { info, is_test: latest.is_test() })
        },
        None => Err(UpdateError::InconsistentManifest),
    }
}

pub open spec fn bool_text(b: bool) -> Seq<char> {
    if b {
        "true"@
    } else {
        "false"@
    }
}

/// The lines the updater prints for a report.
pub open spec fn report_lines(report: CheckReport) -> Seq<Seq<char>> {
    match report {
        CheckReport::UpToDate => seq!["UP_TO_DATE"@],
        CheckReport::Available { info, is_test } => seq![
            "UPDATE_AVAILABLE:"@ + info.version@,
            "URL:"@ + info.url@,
            "CHECKSUM:"@ + info.checksum@,
            "SIZE:"@ + decimal(info.size_bytes as nat),
            "BREAKING:"@ + bool_text(info.breaking_changes),
            "IS_TEST:"@ + bool_text(is_test),
        ],
    }
}

fn labelled(label: &str, value: &str) -> (r: String)
    ensures
        r@ == label@ + value@,
{
    let mut line = String::from_str(label);
    line.append(value);
    line
}

fn bool_str(b: bool) -> (r: &'static str)
    ensures
        r@ == bool_text(b),
{
    if b {
        "true"
    } else {
        "false"
    }
}

/// The lines the updater prints for `report`, in order.
pub fn check_report_lines(report: &CheckReport) -> (r: Vec<String>)
    ensures
        texts(r@) == report_lines(*report),
{
    let mut lines: Vec<String> = Vec::new();
    match report {
        CheckReport::UpToDate => {
            lines.push(String::from_str("UP_TO_DATE"));
        },
        CheckReport::Available { info, is_test } => {
            lines.push(labelled("UPDATE_AVAILABLE:", info.version.as_str()));
            lines.push(labelled("URL:", info.url.as_str()));
            lines.push(labelled("CHECKSUM:", info.checksum.as_str()));
            let mut size = String::from_str("SIZE:");
            push_decimal(&mut size, info.size_bytes);
            lines.push(size);
            lines.push(labelled("BREAKING:", bool_str(info.breaking_changes)));
            lines.push(labelled("IS_TEST:", bool_str(*is_test)));
        },
    }
    assert(texts(lines@) =~= report_lines(*report));
    lines
}

/// The updater's answer to `check`: the lines to print for the manifest and
/// the running version, or the error to exit with. A newer version gives
/// exactly one `UPDATE_AVAILABLE` line followed by its five fields; an equal
/// or older one gives the single line `UP_TO_DATE`.
pub fn check_output(manifest: &UpdateManifest, current_version: &str) -> (r: Result<
    Vec<String>,
    UpdateError,
>)
    ensures
        match (parse_version(current_version@), parse_version(manifest.latest_version@)) {
            (Some(current), Some(latest)) => if version_lt(current, latest) {
                let k = entry_index(manifest.versions@, manifest.latest_version@);
                let entry = manifest.versions@[k as int].1;
                if k < manifest.versions@.len() {
                    r matches Ok(lines) && texts(lines@) == seq![
                        "UPDATE_AVAILABLE:"@ + manifest.latest_version@,
                        "URL:"@ + entry.download_url@,
                        "CHECKSUM:"@ + entry.checksum_sha256@,
                        "SIZE:"@ + decimal(entry.file_size_bytes as nat),
                        "BREAKING:"@ + bool_text(entry.breaking_changes),
                        "IS_TEST:"@ + bool_text(latest.rc.is_some()),
                    ]
                } else {
                    r == Err::<Vec<String>, UpdateError>(UpdateError::InconsistentManifest)
                }
            } else {
                r matches Ok(lines) && texts(lines@) == seq!["UP_TO_DATE"@]
            },
            _ => r == Err::<Vec<String>, UpdateError>(UpdateError::InvalidVersionFormat),
        },
{
    match evaluate_manifest(manifest, current_version) {
        Ok(report) => Ok(check_report_lines(&report)),
        Err(e) => Err(e),
    }
}

/// A line that ends the host's search: an update or "up to date".
pub open spec fn is_marker(line: Seq<char>) -> bool {
    has_prefix(line, "UPDATE_AVAILABLE:"@) || line == "UP_TO_DATE"@
}

/// The value of the last line that begins with `label`.
pub open spec fn last_field(lines: Seq<Seq<char>>, label: Seq<char>) -> Option<Seq<char>>
    decreases lines.len(),
{
    if lines.len() == 0 {
        None
    } else if has_prefix(lines.last(), label) {
        Some(lines.last().skip(label.len() as int))
    } else {
        last_field(lines.drop_last(), label)
    }
}

pub open spec fn text_or_empty(t: Option<Seq<char>>) -> Seq<char> {
    match t {
        Some(x) => x,
        None => seq![],
    }
}

/// A size field's value; 0 when absent or not a number.
pub open spec fn size_or_zero(t: Option<Seq<char>>) -> u64 {
    match t {
        Some(x) => if decimal_within(x, u64::MAX as nat) {
            digits_value(x) as u64
        } else {
            0
        },
        None => 0,
    }
}

/// What the host makes of the updater's output for `check`: the first
/// marker line decides. `UP_TO_DATE` gives `None`; `UPDATE_AVAILABLE:v`
/// gives the update, its fields taken from the last line carrying each,
/// unless `v` holds an `r` (a test build) and test builds are not allowed.
pub open spec fn check_result(output: Seq<char>, allow_test_versions: bool, r: Result<
    Option<UpdateInfo>,
    UpdateError,
>) -> bool {
    let lines = text_lines(output);
    let i = first_index(lines, |l: Seq<char>| is_marker(l));
    if i >= lines.len() {
        r == Err::<Option<UpdateInfo>, UpdateError>(UpdateError::UnexpectedOutput)
    } else if !has_prefix(lines[i as int], "UPDATE_AVAILABLE:"@) {
        r == Ok::<Option<UpdateInfo>, UpdateError>(None)
    } else {
        let version = lines[i as int].skip("UPDATE_AVAILABLE:"@.len() as int);
        if find(version, 'r') < version.len() && !allow_test_versions {
            r == Err::<Option<UpdateInfo>, UpdateError>(UpdateError::TestVersionRejected)
        } else {
            r matches Ok(Some(info)) && info.version@ == version && info.url@ == text_or_empty(
                last_field(lines, "URL:"@),
            ) && info.checksum@ == text_or_empty(last_field(lines, "CHECKSUM:"@))
                && info.size_bytes == size_or_zero(last_field(lines, "SIZE:"@))
                && info.breaking_changes == (last_field(lines, "BREAKING:"@) == Some("true"@))
        }
    }
}

/// The value of the last of `lines` that begins with `label`.
fn field_value(lines: &Vec<String>, label: &str) -> (r: Option<String>)
    ensures
        match last_field(texts(lines@), label@) {
            Some(v) => r matches Some(s) && s@ == v,
            None => r is None,
        },
{
    let n = lines.len();
    let mut found: Option<String> = None;
    let mut i: usize = 0;
    while i < n
        invariant
            0 <= i <= n,
            n == lines@.len(),
            match last_field(texts(lines@).take(i as int), label@) {
                Some(v) => found matches Some(s) && s@ == v,
                None => found is None,
            },
        decreases n - i,
    {
        let ghost t = texts(lines@).take(i + 1);
        assert(t.drop_last() =~= texts(lines@).take(i as int));
        assert(t.last() == lines@[i as int]@);
        if starts_with(lines[i].as_str(), label) {
            found = Some(after_prefix(lines[i].as_str(), label));
        }
        i = i + 1;
    }
    assert(texts(lines@).take(n as int) =~= texts(lines@));
    found
}

fn text_or_new(t: Option<String>) -> (r: String)
    ensures
        r@ == text_or_empty(
            match t {
                Some(s) => Some(s@),
                None => None,
            },
        ),
{
    match t {
        Some(s) => s,
        None => String::new(),
    }
}

/// Reads the updater's output for `check` (see `check_result`).
pub fn parse_check_output(output: &str, allow_test_versions: bool) -> (r: Result<
    Option<UpdateInfo>,
    UpdateError,
>)
    ensures
        check_result(output@, allow_test_versions, r),
{
    let lines = split_lines(output);
    let ghost ls = texts(lines@);
    let n = lines.len();
    let mut i: usize = 0;
    let up_to_date = String::from_str("UP_TO_DATE");
    while i < n
        invariant
            0 <= i <= n,
            n == lines@.len(),
            ls == texts(lines@),
            ls == text_lines(output@),
            up_to_date@ == "UP_TO_DATE"@,
            forall|j: int| 0 <= j < i ==> !is_marker(#[trigger] ls[j]),
        decreases n - i,
    {
        assert(ls[i as int] == lines@[i as int]@);
        if starts_with(lines[i].as_str(), "UPDATE_AVAILABLE:") {
            proof {
                lemma_first_index_is(ls, |l: Seq<char>| is_marker(l), i as int);
            }
            let version = after_prefix(lines[i].as_str(), "UPDATE_AVAILABLE:");
            let k = find_char(version.as_str(), 'r');
            if k < version.unicode_len() && !allow_test_versions {
                return Err(UpdateError::TestVersionRejected);
            }
            let url = text_or_new(field_value(&lines, "URL:"));
            let checksum = text_or_new(field_value(&lines, "CHECKSUM:"));
            let size = match field_value(&lines, "SIZE:") {
                Some(s) => match parse_decimal(s.as_str(), 0xffff_ffff_ffff_ffff) {
                    Some(v) => v,
                    None => 0,
                },
                None => 0,
            };
            let breaking = match field_value(&lines, "BREAKING:") {
                Some(s) => s == String::from_str("true"),
                None => false,
            };
            return Ok(Some(UpdateInfo { version, url, checksum, size_bytes: size, breaking_changes: breaking }));
        }
        if lines[i] == up_to_date {
            proof {
                lemma_first_index_is(ls, |l: Seq<char>| is_marker(l), i as int);
            }
            return Ok(None);
        }
        i = i + 1;
    }
    proof {
        lemma_first_index_is(ls, |l: Seq<char>| is_marker(l), n as int);
    }
    Err(UpdateError::UnexpectedOutput)
}

/// The path that the updater's output for `download` reports: the text after
/// the first `DOWNLOAD_COMPLETE:` line.
pub open spec fn download_result(output: Seq<char>) -> Option<Seq<char>> {
    let lines = text_lines(output);
    let i = first_index(lines, |l: Seq<char>| has_prefix(l, "DOWNLOAD_COMPLETE:"@));
    if i < lines.len() {
        Some(lines[i as int].skip("DOWNLOAD_COMPLETE:"@.len() as int))
    } else {
        None
    }
}

/// Reads the staged path from the updater's output for `download`.
pub fn parse_download_output(output: &str) -> (r: Option<String>)
    ensures
        match download_result(output@) {
            Some(p) => r matches Some(s) && s@ == p,
            None => r is None,
        },
{
    let lines = split_lines(output);
    let ghost ls = texts(lines@);
    let n = lines.len();
    let mut i: usize = 0;
    while i < n
        invariant
            0 <= i <= n,
            n == lines@.len(),
            ls == texts(lines@),
            ls == text_lines(output@),
            forall|j: int| 0 <= j < i ==> !has_prefix(#[trigger] ls[j], "DOWNLOAD_COMPLETE:"@),
        decreases n - i,
    {
        assert(ls[i as int] == lines@[i as int]@);
        if starts_with(lines[i].as_str(), "DOWNLOAD_COMPLETE:") {
            proof {
                lemma_first_index_is(ls, |l: Seq<char>| has_prefix(l, "DOWNLOAD_COMPLETE:"@), i as int);
            }
            return Some(after_prefix(lines[i].as_str(), "DOWNLOAD_COMPLETE:"));
        }
        i = i + 1;
    }
    proof {
        lemma_first_index_is(ls, |l: Seq<char>| has_prefix(l, "DOWNLOAD_COMPLETE:"@), n as int);
    }
    None
}

/// The line the updater prints after staging a verified artifact.
pub fn download_complete_line(path: &str) -> (r: String)
    ensures
        r@ == "DOWNLOAD_COMPLETE:"@ + path@,
{
    labelled("DOWNLOAD_COMPLETE:", path)
}

/// The line the updater prints once the new executable is in place.
pub fn update_applied_line(version: &str) -> (r: String)
    ensures
        r@ == "UPDATE_APPLIED:"@ + version@,
{
    labelled("UPDATE_APPLIED:", version)
}


/// The text of `lines` printed one after the other, each ended by `\n`.
pub open spec fn printed(lines: Seq<Seq<char>>) -> Seq<char>
    decreases lines.len(),
{
    if lines.len() == 0 {
        seq![]
    } else {
        lines[0] + seq!['\n'] + printed(lines.drop_first())
    }
}

/// A line that reads back as itself: no line feed in it, no carriage
/// return at its end.
pub open spec fn clean_line(l: Seq<char>) -> bool {
    lacks(l, '\n') && (l.len() > 0 ==> l.last() != '\r')
}

proof fn lemma_printed_lines(lines: Seq<Seq<char>>)
    requires
        forall|i: int| 0 <= i < lines.len() ==> clean_line(#[trigger] lines[i]),
    ensures
        text_lines(printed(lines)) == lines,
    decreases lines.len(),
{
    if lines.len() > 0 {
        let rest = lines.drop_first();
        assert forall|i: int| 0 <= i < rest.len() implies clean_line(#[trigger] rest[i]) by {
            assert(rest[i] == lines[i + 1]);
        }
        lemma_printed_lines(rest);
        let s = printed(lines);
        assert(clean_line(lines[0]));
        lemma_find_after(lines[0], '\n', printed(rest));
        assert(strip_cr(lines[0]) == lines[0]);
        assert(lines =~= seq![lines[0]] + rest);
    }
}

proof fn lemma_label_line(label: Seq<char>, x: Seq<char>)
    requires
        label.len() > 0,
        clean_line(label),
        lacks(x, '\n'),
        lacks(x, '\r'),
    ensures
        clean_line(label + x),
        has_prefix(label + x, label),
        (label + x).skip(label.len() as int) == x,
{
    crate::text::lemma_lacks_concat(label, x, '\n');
    assert((label + x).take(label.len() as int) =~= label);
    assert((label + x).skip(label.len() as int) =~= x);
    if x.len() > 0 {
        assert((label + x).last() == x[x.len() - 1]);
    }
}

proof fn lemma_not_prefix(a: Seq<char>, x: Seq<char>, b: Seq<char>, i: int)
    requires
        0 <= i < a.len(),
        i < b.len(),
        a[i] != b[i],
    ensures
        !has_prefix(a + x, b),
{
    if b.len() <= (a + x).len() {
        assert((a + x).take(b.len() as int)[i] == a[i]);
    }
}

proof fn lemma_last_field_at(lines: Seq<Seq<char>>, label: Seq<char>, k: int)
    requires
        0 <= k < lines.len(),
        has_prefix(lines[k], label),
        forall|j: int| k < j < lines.len() ==> !has_prefix(#[trigger] lines[j], label),
    ensures
        last_field(lines, label) == Some(lines[k].skip(label.len() as int)),
    decreases lines.len(),
{
    if k < lines.len() - 1 {
        let t = lines.drop_last();
        assert(!has_prefix(lines[lines.len() - 1], label));
        assert forall|j: int| k < j < t.len() implies !has_prefix(#[trigger] t[j], label) by {
            assert(t[j] == lines[j]);
        }
        lemma_last_field_at(t, label, k);
    }
}

/// Whatever report the updater prints, the host reads back: an update's
/// version, URL, checksum, size and breaking flag arrive unchanged (when its
/// fields hold no line breaks and, unless test builds are allowed, its
/// version no `r`), and "up to date" arrives as no update.
pub proof fn host_reads_printed_report(
    report: CheckReport,
    allow_test_versions: bool,
    r: Result<Option<UpdateInfo>, UpdateError>,
)
    requires
        check_result(printed(report_lines(report)), allow_test_versions, r),
        report matches CheckReport::Available { info, is_test } ==> {
            &&& lacks(info.version@, '\n') && lacks(info.version@, '\r')
            &&& lacks(info.url@, '\n') && lacks(info.url@, '\r')
            &&& lacks(info.checksum@, '\n') && lacks(info.checksum@, '\r')
            &&& allow_test_versions || lacks(info.version@, 'r')
        },
    ensures
        report is UpToDate ==> r == Ok::<Option<UpdateInfo>, UpdateError>(None),
        report matches CheckReport::Available { info, is_test } ==> (r matches Ok(Some(u)) && u.version@
            == info.version@ && u.url@ == info.url@ && u.checksum@ == info.checksum@ && u.size_bytes
            == info.size_bytes && u.breaking_changes == info.breaking_changes),
{
    reveal_strlit("UP_TO_DATE");
    reveal_strlit("UPDATE_AVAILABLE:");
    reveal_strlit("URL:");
    reveal_strlit("CHECKSUM:");
    reveal_strlit("SIZE:");
    reveal_strlit("BREAKING:");
    reveal_strlit("IS_TEST:");
    reveal_strlit("true");
    reveal_strlit("false");
    let lines = report_lines(report);
    match report {
        CheckReport::UpToDate => {
            let l = "UP_TO_DATE"@;
            assert(clean_line(l));
            lemma_printed_lines(lines);
            lemma_first_index_is(lines, |l: Seq<char>| is_marker(l), 0);
            assert(!has_prefix(l, "UPDATE_AVAILABLE:"@));
        },
        CheckReport::Available { info, is_test } => {
            let ua = "UPDATE_AVAILABLE:"@;
            let url = "URL:"@;
            let ck = "CHECKSUM:"@;
            let sz = "SIZE:"@;
            let br = "BREAKING:"@;
            let it = "IS_TEST:"@;
            assert(clean_line(ua) && clean_line(url) && clean_line(ck) && clean_line(sz) && clean_line(br) && clean_line(it));
            lemma_decimal(info.size_bytes as nat);
            lemma_decimal_lacks(info.size_bytes as nat, '\n');
            lemma_decimal_lacks(info.size_bytes as nat, '\r');
            let b1 = bool_text(info.breaking_changes);
            let b2 = bool_text(is_test);
            assert(lacks(b1, '\n') && lacks(b1, '\r'));
            assert(lacks(b2, '\n') && lacks(b2, '\r'));
            lemma_label_line(ua, info.version@);
            lemma_label_line(url, info.url@);
            lemma_label_line(ck, info.checksum@);
            lemma_label_line(sz, decimal(info.size_bytes as nat));
            lemma_label_line(br, b1);
            lemma_label_line(it, b2);
            assert forall|i: int| 0 <= i < lines.len() implies clean_line(#[trigger] lines[i]) by {}
            lemma_printed_lines(lines);
            lemma_first_index_is(lines, |l: Seq<char>| is_marker(l), 0);
            if !allow_test_versions {
                lemma_find_absent(info.version@, 'r');
            }
            lemma_not_prefix(ck, info.checksum@, url, 0);
            lemma_not_prefix(sz, decimal(info.size_bytes as nat), url, 0);
            lemma_not_prefix(br, b1, url, 0);
            lemma_not_prefix(it, b2, url, 0);
            lemma_last_field_at(lines, url, 1);
            lemma_not_prefix(sz, decimal(info.size_bytes as nat), ck, 0);
            lemma_not_prefix(br, b1, ck, 0);
            lemma_not_prefix(it, b2, ck, 0);
            lemma_last_field_at(lines, ck, 2);
            lemma_not_prefix(br, b1, sz, 0);
            lemma_not_prefix(it, b2, sz, 0);
            lemma_last_field_at(lines, sz, 3);
            lemma_not_prefix(it, b2, br, 0);
            lemma_last_field_at(lines, br, 4);
            assert("false"@ != "true"@);
        },
    }
}

} // verus!
