//! Deciding which backups a drive connection triggers: a schedule matches a
//! drive by volume serial number or by the drive's id file, and triggers when
//! its interval has passed since its last backup.

use vstd::prelude::*;
use crate::clock::{parse_rfc3339, rfc3339_seconds};
use crate::config::{AppConfig, BackupSchedule};
use crate::text::{decimal, push_decimal};

verus! {

/// A drive as enumerated: letter, volume serial number if readable, and
/// whether it carries an id file (with its content if readable).
#[derive(Clone, Debug)]
pub struct DriveInfo {
    pub letter: char,
    pub serial: Option<u32>,
    pub has_id_file: bool,
    pub id_content: Option<String>,
}

/// Whether `schedule` is for drive `d`. A non-empty serial in the schedule
/// must equal the drive's serial written in decimal; otherwise the schedule
/// matches by id file, if it asks for that.
pub open spec fn schedule_matches(schedule: BackupSchedule, d: DriveInfo) -> bool {
    schedule.enabled && schedule.trigger_on_connect && match schedule.drive_serial {
        Some(target) => if target@.len() > 0 {
            match d.serial {
                Some(n) => target@ == decimal(n as nat),
                None => false,
            }
        } else {
            schedule.drive_id_file && d.has_id_file
        },
        None => schedule.drive_id_file && d.has_id_file,
    }
}

/// Whether `schedule` is due at `now`: never backed up, a last-backup time
/// that is empty or not RFC 3339, or at least its interval in days since it.
pub open spec fn backup_due(schedule: BackupSchedule, now: i64) -> bool {
    match schedule.last_backup {
        Some(t) => t@.len() == 0 || match rfc3339_seconds(t@) {
            Some(last) => now - last >= schedule.interval_days * 86400,
            None => true,
        },
        None => true,
    }
}

/// Whether `schedule` is due at `now`.
pub fn is_backup_due(schedule: &BackupSchedule, now: i64) -> (r: bool)
    ensures
        r == backup_due(*schedule, now),
{
    match &schedule.last_backup {
        Some(t) => {
            if t.unicode_len() == 0 {
                return true;
            }
            match parse_rfc3339(t.as_str()) {
                Some(last) => now as i128 - last as i128 >= schedule.interval_days as i128 * 86400,
                None => true,
            }
        },
        None => true,
    }
}

/// Positions of the schedules among `schedules` that drive `d` triggers at
/// `now`, in order.
pub open spec fn triggered(schedules: Seq<BackupSchedule>, d: DriveInfo, now: i64) -> Seq<usize>
    decreases schedules.len(),
{
    if schedules.len() == 0 {
        seq![]
    } else {
        let rest = triggered(schedules.drop_last(), d, now);
        let s = schedules.last();
        if schedule_matches(s, d) && backup_due(s, now) {
            rest.push((schedules.len() - 1) as usize)
        } else {
            rest
        }
    }
}

fn serial_text(n: u32) -> (r: String)
    ensures
        r@ == decimal(n as nat),
{
    let mut s = String::new();
    push_decimal(&mut s, n as u64);
    assert(s@ =~= decimal(n as nat));
    s
}

fn matches_drive(schedule: &BackupSchedule, d: &DriveInfo) -> (r: bool)
    ensures
        r == schedule_matches(*schedule, *d),
{
    if !schedule.enabled || !schedule.trigger_on_connect {
        return false;
    }
    match &schedule.drive_serial {
        Some(target) => if target.unicode_len() > 0 {
            match d.serial {
                Some(n) => *target == serial_text(n),
                None => false,
            }
        } else {
            schedule.drive_id_file && d.has_id_file
        },
        None => schedule.drive_id_file && d.has_id_file,
    }
}

/// The schedules of `config` that the connection of `d` triggers at `now`,
/// by position.
pub fn schedules_for_drive(config: &AppConfig, d: &DriveInfo, now: i64) -> (r: Vec<usize>)
    ensures
        r@ == triggered(config.schedules@, *d, now),
{
    let n = config.schedules.len();
    let mut out: Vec<usize> = Vec::new();
    let mut i: usize = 0;
    while i < n
        invariant
            0 <= i <= n,
            n == config.schedules@.len(),
            out@ == triggered(config.schedules@.take(i as int), *d, now),
        decreases n - i,
    {
        let ghost t = config.schedules@.take(i + 1);
        assert(t.drop_last() =~= config.schedules@.take(i as int));
        assert(t.last() == config.schedules@[i as int]);
        let s = &config.schedules[i];
        if matches_drive(s, d) && is_backup_due(s, now) {
            out.push(i);
        }
        i = i + 1;
    }
    assert(config.schedules@.take(n as int) =~= config.schedules@);
    out
}

/// `drives` holds a drive with this letter.
pub open spec fn has_letter(drives: Seq<DriveInfo>, letter: char) -> bool {
    exists|i: int| 0 <= i < drives.len() && (#[trigger] drives[i]).letter == letter
}

/// The backups to start, as (drive letter, schedule position), for the
/// drives of `current` that `known` does not hold, in order.
pub open spec fn new_drive_triggers(
    schedules: Seq<BackupSchedule>,
    current: Seq<DriveInfo>,
    known: Seq<DriveInfo>,
    now: i64,
) -> Seq<(char, usize)>
    decreases current.len(),
{
    if current.len() == 0 {
        seq![]
    } else {
        let rest = new_drive_triggers(schedules, current.drop_last(), known, now);
        let d = current.last();
        if has_letter(known, d.letter) {
            rest
        } else {
            rest + triggered(schedules, d, now).map_values(|k: usize| (d.letter, k))
        }
    }
}

fn knows_letter(drives: &Vec<DriveInfo>, letter: char) -> (r: bool)
    ensures
        r == has_letter(drives@, letter),
{
    let n = drives.len();
    let mut i: usize = 0;
    while i < n
        invariant
            0 <= i <= n,
            n == drives@.len(),
            forall|j: int| 0 <= j < i ==> (#[trigger] drives@[j]).letter != letter,
        decreases n - i,
    {
        if drives[i].letter == letter {
            return true;
        }
        i = i + 1;
    }
    false
}

fn triggers_of(
    config: &AppConfig,
    current: &Vec<DriveInfo>,
    known: &Vec<DriveInfo>,
    now: i64,
) -> (r: Vec<(char, usize)>)
    ensures
        r@ == new_drive_triggers(config.schedules@, current@, known@, now),
{
    let n = current.len();
    let mut out: Vec<(char, usize)> = Vec::new();
    let mut i: usize = 0;
    while i < n
        invariant
            0 <= i <= n,
            n == current@.len(),
            out@ == new_drive_triggers(config.schedules@, current@.take(i as int), known@, now),
        decreases n - i,
    {
        let ghost t = current@.take(i + 1);
        assert(t.drop_last() =~= current@.take(i as int));
        assert(t.last() == current@[i as int]);
        let d = &current[i];
        if !knows_letter(known, d.letter) {
            let ks = schedules_for_drive(config, d, now);
            let ghost before = out@;
            let m = ks.len();
            let mut j: usize = 0;
            while j < m
                invariant
                    0 <= j <= m,
                    m == ks@.len(),
                    out@ == before + ks@.take(j as int).map_values(|k: usize| (d.letter, k)),
                decreases m - j,
            {
                out.push((d.letter, ks[j]));
                assert(ks@.take(j + 1).map_values(|k: usize| (d.letter, k)) =~= ks@.take(
                    j as int,
                ).map_values(|k: usize| (d.letter, k)).push((d.letter, ks@[j as int])));
                j = j + 1;
            }
            assert(ks@.take(m as int) =~= ks@);
        }
        i = i + 1;
    }
    assert(current@.take(n as int) =~= current@);
    out
}

/// The drives seen at the last poll.
#[derive(Debug)]
pub struct DriveMonitor {
    pub connected_drives: Vec<DriveInfo>,
}

impl DriveMonitor {
    /// A monitor that has seen no drive yet.
    pub fn new() -> (r: DriveMonitor)
        ensures
            r.connected_drives@.len() == 0,
    {
        DriveMonitor { connected_drives: Vec::new() }
    }

    /// Takes a new enumeration of the drives: the backups that newly
    /// connected drives trigger at `now` are returned, and the enumeration
    /// becomes the set of connected drives.
    pub fn check_drives(&mut self, config: &AppConfig, current_drives: Vec<DriveInfo>, now: i64) -> (r: Vec<(char, usize)>)
        ensures
            r@ == new_drive_triggers(config.schedules@, current_drives@, old(self).connected_drives@, now),
            final(self).connected_drives@ == current_drives@,
    {
        let r = triggers_of(config, &current_drives, &self.connected_drives, now);
        self.connected_drives = current_drives;
        r
    }

    /// At startup every present drive counts as newly connected.
    pub fn check_all_drives_on_startup(&mut self, config: &AppConfig, current_drives: Vec<DriveInfo>, now: i64) -> (r: Vec<(char, usize)>)
        ensures
            r@ == new_drive_triggers(config.schedules@, current_drives@, Seq::<DriveInfo>::empty(), now),
            final(self).connected_drives@ == current_drives@,
    {
        let none: Vec<DriveInfo> = Vec::new();
        let r = triggers_of(config, &current_drives, &none, now);
        self.connected_drives = current_drives;
        r
    }
}

} // verus!
