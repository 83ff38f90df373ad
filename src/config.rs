//! The host application's configuration: general settings, which carry the
//! update settings, and the backup schedules.

use vstd::prelude::*;
use crate::manifest::{default_update_settings, UpdateSettings};
use crate::clock::now;
use crate::drives::{backup_due, is_backup_due};
use crate::text::{decimal, first_index, lemma_first_index_is, push_decimal, split_lines, text_lines, texts};

verus! {

/// General settings of the host application.
#[derive(Debug)]
pub struct GeneralSettings {
    pub language: String,
    pub min_free_space_gb: u64,
    pub warn_before_delete: bool,
    pub update_settings: Option<UpdateSettings>,
}

/// A backup job: which drive triggers it, what is copied where, and when.
#[derive(Clone, Debug)]
pub struct BackupSchedule {
    pub id: String,
    pub name: String,
    pub enabled: bool,
    pub drive_serial: Option<String>,
    pub drive_id_file: bool,
    pub source_paths: Vec<String>,
    pub destination_path: String,
    pub interval_days: u64,
    pub last_backup: Option<String>,
    pub trigger_on_connect: bool,
    pub trigger_on_schedule: bool,
    pub countdown_minutes: u64,
}

/// The whole configuration the host application persists.
#[derive(Debug)]
pub struct AppConfig {
    pub general: GeneralSettings,
    pub schedules: Vec<BackupSchedule>,
}

/// The language used when the configuration names none.
pub fn default_language() -> (r: String)
    ensures
        r@ == "en"@,
{
    String::from_str("en")
}

/// The minimum free space, in GB, used when the configuration names none.
pub fn default_min_free_space() -> (r: u64)
    ensures
        r == 10,
{
    10
}

/// The value of flags that default to on.
pub fn default_true() -> (r: bool)
    ensures
        r,
{
    true
}

impl Default for AppConfig {
    /// English, 10 GB minimum free space, a warning before deleting, default
    /// update settings and no schedules.
    fn default() -> (r: Self)
        ensures
            r.general.language@ == "en"@,
            r.general.min_free_space_gb == 10,
            r.general.warn_before_delete,
            r.general.update_settings matches Some(u) && default_update_settings(u),
            r.schedules@.len() == 0,
    {
        AppConfig {
            general: GeneralSettings {
                language: default_language(),
                min_free_space_gb: default_min_free_space(),
                warn_before_delete: default_true(),
                update_settings: Some(UpdateSettings::default()),
            },
            schedules: Vec::new(),
        }
    }
}

/// `schedules` without those whose id is `id`, in order.
pub open spec fn without_id(schedules: Seq<BackupSchedule>, id: Seq<char>) -> Seq<BackupSchedule>
    decreases schedules.len(),
{
    if schedules.len() == 0 {
        seq![]
    } else {
        let rest = without_id(schedules.drop_last(), id);
        if schedules.last().id@ == id {
            rest
        } else {
            rest.push(schedules.last())
        }
    }
}

impl AppConfig {
    /// Appends a schedule.
    pub fn add_schedule(&mut self, schedule: BackupSchedule)
        ensures
            final(self).schedules@ == old(self).schedules@.push(schedule),
            final(self).general == old(self).general,
    {
        self.schedules.push(schedule);
    }

    /// Removes every schedule with the given id, keeping the others in order.
    pub fn remove_schedule(&mut self, id: &str)
        ensures
            final(self).schedules@ == without_id(old(self).schedules@, id@),
            final(self).general == old(self).general,
    {
        let ghost all = self.schedules@;
        let target = String::from_str(id);
        let mut kept: Vec<BackupSchedule> = Vec::new();
        let mut i: usize = 0;
        let n = self.schedules.len();
        assert(n == all.len());
        assert(self.schedules@.skip(0) =~= self.schedules@);
        while self.schedules.len() > 0
            invariant
                self.schedules@ == all.skip(i as int),
                0 <= i <= all.len(),
                all.len() <= usize::MAX,
                kept@ == without_id(all.take(i as int), id@),
                target@ == id@,
                self.general == old(self).general,
                all == old(self).schedules@,
            decreases self.schedules@.len(),
        {
            let ghost t = all.take(i + 1);
            assert(t.drop_last() =~= all.take(i as int));
            let s = self.schedules.remove(0);
            assert(s == all[i as int]);
            assert(self.schedules@ =~= all.skip(i + 1));
            if s.id != target {
                kept.push(s);
            }
            i = i + 1;
        }
        assert(all.take(i as int) =~= all);
        self.schedules = kept;
    }
}

/// Positions of the schedules that are enabled, run on a timetable and are
/// due at `now`, in order.
pub open spec fn scheduled_due(schedules: Seq<BackupSchedule>, now: i64) -> Seq<usize>
    decreases schedules.len(),
{
    if schedules.len() == 0 {
        seq![]
    } else {
        let rest = scheduled_due(schedules.drop_last(), now);
        let s = schedules.last();
        if s.enabled && s.trigger_on_schedule && backup_due(s, now) {
            rest.push((schedules.len() - 1) as usize)
        } else {
            rest
        }
    }
}

impl AppConfig {
    /// The schedules due for a timed backup at `now`, by position.
    pub fn due_schedules_at(&self, now: i64) -> (r: Vec<usize>)
        ensures
            r@ == scheduled_due(self.schedules@, now),
    {
        let n = self.schedules.len();
        let mut out: Vec<usize> = Vec::new();
        let mut i: usize = 0;
        while i < n
            invariant
                0 <= i <= n,
                n == self.schedules@.len(),
                out@ == scheduled_due(self.schedules@.take(i as int), now),
            decreases n - i,
        {
            let ghost t = self.schedules@.take(i + 1);
            assert(t.drop_last() =~= self.schedules@.take(i as int));
            assert(t.last() == self.schedules@[i as int]);
            let s = &self.schedules[i];
            if s.enabled && s.trigger_on_schedule && is_backup_due(s, now) {
                out.push(i);
            }
            i = i + 1;
        }
        assert(self.schedules@.take(n as int) =~= self.schedules@);
        out
    }

    /// The schedules due for a timed backup now.
    pub fn check_scheduled_backups(&self) -> (r: Vec<usize>)
        ensures
            exists|now: i64| r@ == scheduled_due(self.schedules@, now),
    {
        let current = now();
        self.due_schedules_at(current.seconds)
    }

    /// Records the current time as the last backup of the first schedule
    /// with id `schedule_id`; nothing changes when there is none.
    pub fn update_last_backup(&mut self, schedule_id: &str)
        ensures
            final(self).general == old(self).general,
            final(self).schedules@.len() == old(self).schedules@.len(),
            ({
                let k = first_index(old(self).schedules@, |s: BackupSchedule| s.id@ == schedule_id@);
                &&& forall|j: int| 0 <= j < old(self).schedules@.len() && j != k ==> final(self).schedules@[j] == old(self).schedules@[j]
                &&& k < old(self).schedules@.len() ==> {
                    &&& final(self).schedules@[k as int].last_backup is Some
                    &&& final(self).schedules@[k as int] == (BackupSchedule {
                        last_backup: final(self).schedules@[k as int].last_backup,
                        ..old(self).schedules@[k as int]
                    })
                }
            }),
    {
        let target = String::from_str(schedule_id);
        let n = self.schedules.len();
        let mut i: usize = 0;
        while i < n
            invariant
                0 <= i <= n,
                n == self.schedules@.len(),
                target@ == schedule_id@,
                self.schedules == old(self).schedules,
                self.general == old(self).general,
                forall|j: int| 0 <= j < i ==> (#[trigger] self.schedules@[j]).id@ != schedule_id@,
            decreases n - i,
        {
            if self.schedules[i].id == target {
                proof {
                    lemma_first_index_is(self.schedules@, |s: BackupSchedule| s.id@ == schedule_id@, i as int);
                }
                let mut s = self.schedules.remove(i);
                s.last_backup = Some(now().text);
                self.schedules.insert(i, s);
                return;
            }
            i = i + 1;
        }
        proof {
            lemma_first_index_is(self.schedules@, |s: BackupSchedule| s.id@ == schedule_id@, n as int);
        }
    }
}

/// White space as `char::is_whitespace` has it (Unicode White_Space).
pub open spec fn is_space(c: char) -> bool {
    ||| c == ' '
    ||| '\t' <= c && c <= '\r'
    ||| c == '\u{85}'
    ||| c == '\u{a0}'
    ||| c == '\u{1680}'
    ||| '\u{2000}' <= c && c <= '\u{200a}'
    ||| c == '\u{2028}'
    ||| c == '\u{2029}'
    ||| c == '\u{202f}'
    ||| c == '\u{205f}'
    ||| c == '\u{3000}'
}

fn space_char(c: char) -> (r: bool)
    ensures
        r == is_space(c),
{
    c == ' ' || ('\t' <= c && c <= '\r') || c == '\u{85}' || c == '\u{a0}' || c == '\u{1680}'
        || ('\u{2000}' <= c && c <= '\u{200a}') || c == '\u{2028}' || c == '\u{2029}'
        || c == '\u{202f}' || c == '\u{205f}' || c == '\u{3000}'
}

/// A line of a backup list that names a path: something other than white
/// space, and not a comment starting with `#`.
pub open spec fn is_list_entry(line: Seq<char>) -> bool {
    let k = first_index(line, |c: char| !is_space(c));
    k < line.len() && line[k as int] != '#'
}

/// The lines of `lines` that name paths, in order.
pub open spec fn list_entries(lines: Seq<Seq<char>>) -> Seq<Seq<char>>
    decreases lines.len(),
{
    if lines.len() == 0 {
        seq![]
    } else {
        let rest = list_entries(lines.drop_last());
        if is_list_entry(lines.last()) {
            rest.push(lines.last())
        } else {
            rest
        }
    }
}

fn list_entry(line: &str) -> (r: bool)
    ensures
        r == is_list_entry(line@),
{
    let n = line.unicode_len();
    let mut i: usize = 0;
    while i < n && space_char(line.get_char(i))
        invariant
            0 <= i <= n,
            n == line@.len(),
            forall|j: int| 0 <= j < i ==> is_space(#[trigger] line@[j]),
        decreases n - i,
    {
        i = i + 1;
    }
    proof {
        lemma_first_index_is(line@, |c: char| !is_space(c), i as int);
    }
    i < n && line.get_char(i) != '#'
}

/// The paths a backup list file names: its lines that are neither blank
/// nor comments, unchanged and in order.
pub fn backup_list_entries(content: &str) -> (r: Vec<String>)
    ensures
        texts(r@) == list_entries(text_lines(content@)),
{
    let lines = split_lines(content);
    let ghost ls = texts(lines@);
    let n = lines.len();
    let mut out: Vec<String> = Vec::new();
    let mut i: usize = 0;
    while i < n
        invariant
            0 <= i <= n,
            n == lines@.len(),
            ls == texts(lines@),
            ls == text_lines(content@),
            texts(out@) == list_entries(ls.take(i as int)),
        decreases n - i,
    {
        let ghost t = ls.take(i + 1);
        assert(t.drop_last() =~= ls.take(i as int));
        assert(t.last() == lines@[i as int]@);
        if list_entry(lines[i].as_str()) {
            let ghost before = out@;
            out.push(lines[i].clone());
            assert(texts(out@) =~= texts(before).push(lines@[i as int]@));
        }
        i = i + 1;
    }
    assert(ls.take(n as int) =~= ls);
    out
}

/// `parts` joined with `sep` between neighbours.
pub open spec fn joined(parts: Seq<Seq<char>>, sep: Seq<char>) -> Seq<char>
    decreases parts.len(),
{
    if parts.len() == 0 {
        seq![]
    } else if parts.len() == 1 {
        parts[0]
    } else {
        joined(parts.drop_last(), sep) + sep + parts.last()
    }
}

/// The content of a backup list file naming `paths`: one per line.
pub fn backup_list_text(paths: &Vec<String>) -> (r: String)
    ensures
        r@ == joined(texts(paths@), "\n"@),
{
    let ghost ps = texts(paths@);
    let n = paths.len();
    let mut out = String::new();
    let mut i: usize = 0;
    while i < n
        invariant
            0 <= i <= n,
            n == paths@.len(),
            ps == texts(paths@),
            out@ == joined(ps.take(i as int), "\n"@),
        decreases n - i,
    {
        let ghost t = ps.take(i + 1);
        assert(t.drop_last() =~= ps.take(i as int));
        assert(t.last() == paths@[i as int]@);
        if i > 0 {
            out.append("\n");
        } else {
            assert(ps.take(i as int).len() == 0);
        }
        out.append(paths[i].as_str());
        i = i + 1;
    }
    assert(ps.take(n as int) =~= ps);
    out
}

impl BackupSchedule {
    /// A new enabled schedule named `name`, identified by its creation time:
    /// triggered by connecting a drive marked with an id file, weekly, with a
    /// five-minute countdown and nothing to copy yet.
    pub fn new(name: String, created_at: u64) -> (r: Self)
        ensures
            r.id@ == "schedule_"@ + decimal(created_at as nat),
            r.name == name,
            r.enabled,
            r.drive_serial is None,
            r.drive_id_file,
            r.source_paths@.len() == 0,
            r.destination_path@.len() == 0,
            r.interval_days == 7,
            r.last_backup is None,
            r.trigger_on_connect,
            !r.trigger_on_schedule,
            r.countdown_minutes == 5,
    {
        let mut id = String::from_str("schedule_");
        push_decimal(&mut id, created_at);
        BackupSchedule {
            id,
            name,
            enabled: true,
            drive_serial: None,
            drive_id_file: true,
            source_paths: Vec::new(),
            destination_path: String::new(),
            interval_days: 7,
            last_backup: None,
            trigger_on_connect: true,
            trigger_on_schedule: false,
            countdown_minutes: 5,
        }
    }
}

} // verus!
