//! Bookkeeping of a backup run: progress counters, the failures met, and the
//! names of the folders the sources are copied into.

use vstd::prelude::*;
use crate::text::{decimal, push_decimal};

verus! {

/// Progress and failures of one backup run.
#[derive(Debug)]
pub struct BackupEngine {
    pub total_files: usize,
    pub copied_files: usize,
    /// Path and error message of each file that could not be copied.
    pub failed_files: Vec<(String, String)>,
    pub is_running: bool,
}

impl BackupEngine {
    /// Every file met is either copied or recorded as failed.
    pub open spec fn wf(&self) -> bool {
        self.copied_files + self.failed_files@.len() == self.total_files
    }

    /// An idle engine with nothing counted.
    pub fn new() -> (r: BackupEngine)
        ensures
            r.wf(),
            r.total_files == 0,
            r.copied_files == 0,
            r.failed_files@.len() == 0,
            !r.is_running,
    {
        BackupEngine { total_files: 0, copied_files: 0, failed_files: Vec::new(), is_running: false }
    }

    /// Files copied so far, and files met so far.
    pub fn get_progress(&self) -> (r: (usize, usize))
        ensures
            r == (self.copied_files, self.total_files),
    {
        (self.copied_files, self.total_files)
    }

    /// Starts a run: counters cleared, running.
    pub fn begin(&mut self)
        ensures
            final(self).wf(),
            final(self).total_files == 0,
            final(self).copied_files == 0,
            final(self).failed_files@.len() == 0,
            final(self).is_running,
    {
        self.total_files = 0;
        self.copied_files = 0;
        self.failed_files = Vec::new();
        self.is_running = true;
    }

    /// Counts one file met during the run: copied when `error` is `None`,
    /// otherwise failed with that message.
    pub fn record_file(&mut self, path: String, error: Option<String>)
        requires
            old(self).wf(),
            old(self).total_files < usize::MAX,
        ensures
            final(self).wf(),
            final(self).total_files == old(self).total_files + 1,
            final(self).is_running == old(self).is_running,
            error is None ==> final(self).copied_files == old(self).copied_files + 1
                && final(self).failed_files@ == old(self).failed_files@,
            error matches Some(e) ==> final(self).copied_files == old(self).copied_files
                && final(self).failed_files@ == old(self).failed_files@.push((path, e)),
    {
        self.total_files = self.total_files + 1;
        match error {
            None => {
                self.copied_files = self.copied_files + 1;
            },
            Some(e) => {
                self.failed_files.push((path, e));
            },
        }
    }

    /// Ends the run.
    pub fn finish(&mut self)
        ensures
            old(self).wf() ==> final(self).wf(),
            final(self).total_files == old(self).total_files,
            final(self).copied_files == old(self).copied_files,
            final(self).failed_files@ == old(self).failed_files@,
            !final(self).is_running,
    {
        self.is_running = false;
    }
}

/// One line per failed file, each `path` followed by `suffix(error)`.
pub open spec fn failure_lines(failed: Seq<(String, String)>, with_errors: bool) -> Seq<char>
    decreases failed.len(),
{
    if failed.len() == 0 {
        seq![]
    } else {
        let (path, error) = failed.last();
        failure_lines(failed.drop_last(), with_errors) + path@ + if with_errors {
            " - Failed! ("@ + error@ + ")\n"@
        } else {
            " - OK\n"@
        }
    }
}

fn push_failure_lines(out: &mut String, failed: &Vec<(String, String)>, with_errors: bool)
    ensures
        final(out)@ == old(out)@ + failure_lines(failed@, with_errors),
{
    let n = failed.len();
    let mut i: usize = 0;
    assert(failed@.take(0) =~= Seq::<(String, String)>::empty());
    assert(old(out)@ + Seq::<char>::empty() =~= old(out)@);
    while i < n
        invariant
            0 <= i <= n,
            n == failed@.len(),
            out@ == old(out)@ + failure_lines(failed@.take(i as int), with_errors),
        decreases n - i,
    {
        let ghost t = failed@.take(i + 1);
        assert(t.drop_last() =~= failed@.take(i as int));
        assert(t.last() == failed@[i as int]);
        out.append(failed[i].0.as_str());
        if with_errors {
            out.append(" - Failed! (");
            out.append(failed[i].1.as_str());
            out.append(")\n");
        } else {
            out.append(" - OK\n");
        }
        assert(out@ =~= old(out)@ + failure_lines(t, with_errors));
        i = i + 1;
    }
    assert(failed@.take(n as int) =~= failed@);
}

fn push_count_line(out: &mut String, label: &str, n: usize, end: &str)
    ensures
        final(out)@ == old(out)@ + label@ + decimal(n as nat) + end@,
{
    out.append(label);
    push_decimal(out, n as u64);
    out.append(end);
    assert(final(out)@ =~= old(out)@ + label@ + decimal(n as nat) + end@);
}

impl BackupEngine {
    /// The text of the run's log, stamped with `timestamp`: the counts, then
    /// the files that failed.
    pub fn log_text(&self, timestamp: &str) -> (r: String)
        ensures
            r@ == "DriveGuard Backup Log\n"@ + "Timestamp: "@ + timestamp@ + "\n"@ + "Total files: "@
                + decimal(self.total_files as nat) + "\n"@ + "Successfully copied: "@ + decimal(
                self.copied_files as nat,
            ) + "\n"@ + "Failed: "@ + decimal(self.failed_files@.len()) + "\n\n"@ + failure_lines(
                self.failed_files@,
                false,
            ),
    {
        let mut out = String::from_str("DriveGuard Backup Log\n");
        out.append("Timestamp: ");
        out.append(timestamp);
        out.append("\n");
        push_count_line(&mut out, "Total files: ", self.total_files, "\n");
        push_count_line(&mut out, "Successfully copied: ", self.copied_files, "\n");
        push_count_line(&mut out, "Failed: ", self.failed_files.len(), "\n\n");
        push_failure_lines(&mut out, &self.failed_files, false);
        out
    }

    /// The text of the error log, when some file failed: each failed file
    /// with its error.
    pub fn error_log_text(&self) -> (r: Option<String>)
        ensures
            self.failed_files@.len() == 0 ==> r is None,
            self.failed_files@.len() > 0 ==> (r matches Some(t) && t@ == "DriveGuard Backup Errors\n\n"@
                + failure_lines(self.failed_files@, true)),
    {
        if self.failed_files.len() == 0 {
            return None;
        }
        let mut out = String::from_str("DriveGuard Backup Errors\n\n");
        push_failure_lines(&mut out, &self.failed_files, true);
        Some(out)
    }
}

/// How many of `names` equal `name`.
pub open spec fn count_of(names: Seq<Seq<char>>, name: Seq<char>) -> nat
    decreases names.len(),
{
    if names.len() == 0 {
        0
    } else {
        count_of(names.drop_last(), name) + if names.last() == name {
            1nat
        } else {
            0nat
        }
    }
}

/// The folder for the `i`-th source: its own name the first time that name
/// appears, and `name_k` for its `k`-th repetition.
pub open spec fn folder_name(names: Seq<Seq<char>>, i: int) -> Seq<char> {
    let k = count_of(names.take(i), names[i]);
    if k == 0 {
        names[i]
    } else {
        names[i] + seq!['_'] + decimal(k)
    }
}

/// The folder names for sources named `names`, in order (see `folder_name`).
pub fn folder_names(names: &Vec<String>) -> (r: Vec<String>)
    ensures
        r@.len() == names@.len(),
        forall|i: int| 0 <= i < names@.len() ==> (#[trigger] r@[i])@ == folder_name(crate::text::texts(names@), i),
{
    let ghost ns = crate::text::texts(names@);
    let n = names.len();
    let mut out: Vec<String> = Vec::new();
    let mut i: usize = 0;
    while i < n
        invariant
            0 <= i <= n,
            n == names@.len(),
            ns == crate::text::texts(names@),
            out@.len() == i,
            forall|j: int| 0 <= j < i ==> (#[trigger] out@[j])@ == folder_name(ns, j),
        decreases n - i,
    {
        let mut k: usize = 0;
        let mut j: usize = 0;
        assert(ns.take(0) =~= Seq::<Seq<char>>::empty());
        while j < i
            invariant
                0 <= j <= i < n,
                n == names@.len(),
                ns == crate::text::texts(names@),
                k == count_of(ns.take(j as int), ns[i as int]),
                k <= j,
            decreases i - j,
        {
            let ghost t = ns.take(j + 1);
            assert(t.drop_last() =~= ns.take(j as int));
            assert(t.last() == names@[j as int]@);
            assert(ns[i as int] == names@[i as int]@);
            if names[j] == names[i] {
                k = k + 1;
            }
            j = j + 1;
        }
        assert(ns[i as int] == names@[i as int]@);
        let name = if k == 0 {
            names[i].clone()
        } else {
            let mut s = names[i].clone();
            s.append("_");
            push_decimal(&mut s, k as u64);
            proof {
                reveal_strlit("_");
            }
            s
        };
        out.push(name);
        i = i + 1;
    }
    out
}

} // verus!
