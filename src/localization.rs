//! Translated user-interface texts, by locale, with English as the fallback.
//! The tables are kept as lists of pairs; a lookup takes the first entry
//! under a key.

use vstd::prelude::*;
use crate::text::{decimal, first_index, has_prefix, lemma_first_index_is, push_decimal};

verus! {

/// Position of the first entry of `table` under `key`, or its length.
pub open spec fn key_index<T>(table: Seq<(String, T)>, key: Seq<char>) -> nat {
    first_index(table, |e: (String, T)| e.0@ == key)
}

/// The value under `key` in `table`, if any.
pub open spec fn lookup<T>(table: Seq<(String, T)>, key: Seq<char>) -> Option<T> {
    let k = key_index(table, key);
    if k < table.len() {
        Some(table[k as int].1)
    } else {
        None
    }
}

fn find_key<T>(table: &Vec<(String, T)>, key: &str) -> (r: Option<usize>)
    ensures
        match r {
            Some(i) => i == key_index(table@, key@) && i < table@.len(),
            None => key_index(table@, key@) == table@.len(),
        },
{
    let target = String::from_str(key);
    let n = table.len();
    let mut i: usize = 0;
    while i < n
        invariant
            0 <= i <= n,
            n == table@.len(),
            target@ == key@,
            forall|j: int| 0 <= j < i ==> (#[trigger] table@[j]).0@ != key@,
        decreases n - i,
    {
        if table[i].0 == target {
            proof {
                lemma_first_index_is(table@, |e: (String, T)| e.0@ == key@, i as int);
            }
            return Some(i);
        }
        i = i + 1;
    }
    proof {
        lemma_first_index_is(table@, |e: (String, T)| e.0@ == key@, n as int);
    }
    None
}

/// The text of `key` in the table of `locale`, if both exist.
pub open spec fn translation(
    translations: Seq<(String, Vec<(String, String)>)>,
    locale: Seq<char>,
    key: Seq<char>,
) -> Option<Seq<char>> {
    match lookup(translations, locale) {
        Some(table) => match lookup(table@, key) {
            Some(text) => Some(text@),
            None => None,
        },
        None => None,
    }
}

/// `s` with every occurrence of `pat` replaced by `by`, left to right.
pub open spec fn replace_all(s: Seq<char>, pat: Seq<char>, by: Seq<char>) -> Seq<char>
    decreases s.len(),
{
    if s.len() == 0 {
        seq![]
    } else if pat.len() > 0 && has_prefix(s, pat) {
        by + replace_all(s.skip(pat.len() as int), pat, by)
    } else {
        seq![s[0]] + replace_all(s.drop_first(), pat, by)
    }
}

/// The placeholder for the `i`-th argument: `{i}`.
pub open spec fn placeholder(i: nat) -> Seq<char> {
    seq!['{'] + decimal(i) + seq!['}']
}

/// `text` with the placeholders of the first `n` arguments filled in, one
/// argument after the other.
pub open spec fn filled(text: Seq<char>, args: Seq<&str>, n: nat) -> Seq<char>
    decreases n,
{
    if n == 0 {
        text
    } else {
        replace_all(filled(text, args, (n - 1) as nat), placeholder((n - 1) as nat), args[n - 1]@)
    }
}

fn prefix_at(s: &str, i: usize, pat: &str) -> (r: bool)
    requires
        i <= s@.len(),
    ensures
        r == has_prefix(s@.skip(i as int), pat@),
{
    let n = s.unicode_len();
    let m = pat.unicode_len();
    if m > n - i {
        return false;
    }
    let mut j: usize = 0;
    while j < m
        invariant
            0 <= j <= m,
            i + m <= n,
            n == s@.len(),
            m == pat@.len(),
            forall|k: int| 0 <= k < j ==> s@[i + k] == pat@[k],
        decreases m - j,
    {
        if s.get_char(i + j) != pat.get_char(j) {
            assert(s@.skip(i as int).take(m as int)[j as int] != pat@[j as int]);
            return false;
        }
        j = j + 1;
    }
    assert(s@.skip(i as int).take(m as int) =~= pat@);
    true
}

fn replace_text(s: &str, pat: &str, by: &str) -> (r: String)
    requires
        pat@.len() > 0,
    ensures
        r@ == replace_all(s@, pat@, by@),
{
    let n = s.unicode_len();
    let m = pat.unicode_len();
    let mut out = String::new();
    let mut i: usize = 0;
    assert(s@.skip(0) =~= s@);
    while i < n
        invariant
            0 <= i <= n,
            n == s@.len(),
            m == pat@.len(),
            m > 0,
            replace_all(s@, pat@, by@) == out@ + replace_all(s@.skip(i as int), pat@, by@),
        decreases n - i,
    {
        let ghost rest = s@.skip(i as int);
        if prefix_at(s, i, pat) {
            assert(rest.skip(m as int) =~= s@.skip(i + m));
            out.append(by);
            i = i + m;
        } else {
            assert(rest.drop_first() =~= s@.skip(i + 1));
            let piece = s.substring_char(i, i + 1);
            assert(piece@ =~= seq![rest[0]]);
            out.append(piece);
            i = i + 1;
        }
    }
    assert(s@.skip(n as int) =~= Seq::<char>::empty());
    assert(out@ + Seq::<char>::empty() =~= out@);
    out
}

fn placeholder_text(i: usize) -> (r: String)
    ensures
        r@ == placeholder(i as nat),
{
    proof {
        reveal_strlit("{");
        reveal_strlit("}");
    }
    let mut s = String::from_str("{");
    push_decimal(&mut s, i as u64);
    s.append("}");
    assert(s@ =~= placeholder(i as nat));
    s
}

fn entry(key: &str, text: &str) -> (r: (String, String))
    ensures
        r.0@ == key@,
        r.1@ == text@,
{
    (String::from_str(key), String::from_str(text))
}

/// The English texts, by key.
pub open spec fn english_table() -> Seq<(Seq<char>, Seq<char>)> {
    seq![
        ("app_name"@, "DriveGuard"@),
        ("app_tagline"@, "Automatic USB Drive Backup Tool"@),
        ("backup_starting"@, "Backup for drive {0} is about to start"@),
        ("backup_starting_in"@, "Starting in {0}"@),
        ("backup_in_progress"@, "Backup in progress..."@),
        ("backup_complete"@, "Backup completed successfully!"@),
        ("backup_failed"@, "Backup failed"@),
        ("backup_cancelled"@, "Backup cancelled by user"@),
        ("do_not_disconnect"@, "Please do not disconnect the drive while backup is in progress"@),
        ("files_copied"@, "{0} files copied"@),
        ("button_cancel"@, "Cancel"@),
        ("button_hide"@, "Hide"@),
        ("button_start_now"@, "Start Now"@),
        ("button_ok"@, "OK"@),
        ("button_close"@, "Close"@),
        ("menu_settings"@, "Settings"@),
        ("menu_schedules"@, "View Schedules"@),
        ("menu_about"@, "About"@),
        ("menu_exit"@, "Exit"@),
        ("update_available"@, "DriveGuard Update Available!"@),
        ("update_version_info"@, "Version {0} is now available (you have {1})"@),
        ("update_download_size"@, "Download size: {0} MB"@),
        ("update_changes"@, "Changes:"@),
        ("update_breaking_warning"@, "This update contains breaking changes. Please review the changelog."@),
        ("update_compatible"@, "This is a compatible update and can be installed safely."@),
        ("update_disable_info"@, "To disable automatic updates, go to Settings > Updates"@),
        ("button_update_now"@, "Update Now"@),
        ("button_ask_later"@, "Ask Me Later"@),
        ("button_skip_version"@, "Skip This Version"@),
        ("update_downloading"@, "Downloading update..."@),
        ("update_download_complete"@, "Download complete! Applying update..."@),
        ("update_failed"@, "Update Failed"@),
        ("update_download_failed"@, "Download Failed"@),
        ("settings_title"@, "Settings"@),
        ("settings_current"@, "Current Settings:"@),
        ("settings_language"@, "Language:"@),
        ("settings_min_space"@, "Min Free Space:"@),
        ("settings_warn_delete"@, "Warn Before Delete:"@),
        ("settings_active_schedules"@, "Active Schedules:"@),
        ("settings_edit_info"@, "Edit 'settings.toml' to change settings."@),
        ("schedules_title"@, "Schedules"@),
        ("schedules_none"@, "No schedules configured yet."@),
        ("schedules_add_info"@, "Add a schedule in settings.toml to get started!"@),
        ("schedules_configured"@, "Configured Schedules:"@),
        ("schedule_enabled"@, "Enabled"@),
        ("schedule_disabled"@, "Disabled"@),
        ("schedule_interval"@, "Interval: {0} days"@),
        ("schedule_trigger_connect"@, "Trigger on connect: {0}"@),
        ("schedule_destination"@, "Destination: {0}"@),
        ("about_title"@, "About DriveGuard"@),
        ("about_version"@, "DriveGuard v{0}"@),
        ("about_features"@, "Features:"@),
        ("about_feature_detection"@, "Drive detection by serial number"@),
        ("about_feature_schedules"@, "Schedule-based backups"@),
        ("about_feature_copy"@, "Full file copy with structure preservation"@),
        ("about_created"@, "Created with Rust ðŸ¦€"@),
    ]
}

/// The Ukrainian texts, by key.
pub open spec fn ukrainian_table() -> Seq<(Seq<char>, Seq<char>)> {
    seq![
        ("app_name"@, "DriveGuard"@),
        ("app_tagline"@, "ÐÐ²Ñ‚Ð¾Ð¼Ð°Ñ‚Ð¸Ñ‡Ð½Ðµ Ñ€ÐµÐ·ÐµÑ€Ð²Ð½Ðµ ÐºÐ¾Ð¿Ñ–ÑŽÐ²Ð°Ð½Ð½Ñ USB-Ð½Ð°ÐºÐ¾Ð¿Ð¸Ñ‡ÑƒÐ²Ð°Ñ‡Ñ–Ð²"@),
        ("backup_starting"@, "Ð ÐµÐ·ÐµÑ€Ð²Ð½Ðµ ÐºÐ¾Ð¿Ñ–ÑŽÐ²Ð°Ð½Ð½Ñ Ð´Ð¸ÑÐºÐ° {0} Ñ€Ð¾Ð·Ð¿Ð¾Ñ‡Ð½ÐµÑ‚ÑŒÑÑ"@),
        ("backup_starting_in"@, "ÐŸÐ¾Ñ‡Ð°Ñ‚Ð¾Ðº Ñ‡ÐµÑ€ÐµÐ· {0}"@),
        ("backup_in_progress"@, "Ð’Ð¸ÐºÐ¾Ð½ÑƒÑ”Ñ‚ÑŒÑÑ Ñ€ÐµÐ·ÐµÑ€Ð²Ð½Ðµ ÐºÐ¾Ð¿Ñ–ÑŽÐ²Ð°Ð½Ð½Ñ..."@),
        ("backup_complete"@, "Ð ÐµÐ·ÐµÑ€Ð²Ð½Ðµ ÐºÐ¾Ð¿Ñ–ÑŽÐ²Ð°Ð½Ð½Ñ ÑƒÑÐ¿Ñ–ÑˆÐ½Ð¾ Ð·Ð°Ð²ÐµÑ€ÑˆÐµÐ½Ð¾!"@),
        ("backup_failed"@, "ÐŸÐ¾Ð¼Ð¸Ð»ÐºÐ° Ñ€ÐµÐ·ÐµÑ€Ð²Ð½Ð¾Ð³Ð¾ ÐºÐ¾Ð¿Ñ–ÑŽÐ²Ð°Ð½Ð½Ñ"@),
        ("backup_cancelled"@, "Ð ÐµÐ·ÐµÑ€Ð²Ð½Ðµ ÐºÐ¾Ð¿Ñ–ÑŽÐ²Ð°Ð½Ð½Ñ ÑÐºÐ°ÑÐ¾Ð²Ð°Ð½Ð¾ ÐºÐ¾Ñ€Ð¸ÑÑ‚ÑƒÐ²Ð°Ñ‡ÐµÐ¼"@),
        ("do_not_disconnect"@, "âš  Ð‘ÑƒÐ´ÑŒ Ð»Ð°ÑÐºÐ°, Ð½Ðµ Ð²Ñ–Ð´'Ñ”Ð´Ð½ÑƒÐ¹Ñ‚Ðµ Ð´Ð¸ÑÐº Ð¿Ñ–Ð´ Ñ‡Ð°Ñ Ñ€ÐµÐ·ÐµÑ€Ð²Ð½Ð¾Ð³Ð¾ ÐºÐ¾Ð¿Ñ–ÑŽÐ²Ð°Ð½Ð½Ñ"@),
        ("files_copied"@, "Ð¡ÐºÐ¾Ð¿Ñ–Ð¹Ð¾Ð²Ð°Ð½Ð¾ Ñ„Ð°Ð¹Ð»Ñ–Ð²: {0}"@),
        ("button_cancel"@, "Ð¡ÐºÐ°ÑÑƒÐ²Ð°Ñ‚Ð¸"@),
        ("button_hide"@, "ÐŸÑ€Ð¸Ñ…Ð¾Ð²Ð°Ñ‚Ð¸"@),
        ("button_start_now"@, "ÐŸÐ¾Ñ‡Ð°Ñ‚Ð¸ Ð·Ð°Ñ€Ð°Ð·"@),
        ("button_ok"@, "Ð“Ð°Ñ€Ð°Ð·Ð´"@),
        ("button_close"@, "Ð—Ð°ÐºÑ€Ð¸Ñ‚Ð¸"@),
        ("menu_settings"@, "ÐÐ°Ð»Ð°ÑˆÑ‚ÑƒÐ²Ð°Ð½Ð½Ñ"@),
        ("menu_schedules"@, "ÐŸÐµÑ€ÐµÐ³Ð»ÑÐ½ÑƒÑ‚Ð¸ Ñ€Ð¾Ð·ÐºÐ»Ð°Ð´Ð¸"@),
        ("menu_about"@, "ÐŸÑ€Ð¾ Ð¿Ñ€Ð¾Ð³Ñ€Ð°Ð¼Ñƒ"@),
        ("menu_exit"@, "Ð’Ð¸Ñ…Ñ–Ð´"@),
        ("update_available"@, "ðŸŽ‰ Ð”Ð¾ÑÑ‚ÑƒÐ¿Ð½Ðµ Ð¾Ð½Ð¾Ð²Ð»ÐµÐ½Ð½Ñ DriveGuard!"@),
        ("update_version_info"@, "Ð’ÐµÑ€ÑÑ–Ñ {0} Ñ‚ÐµÐ¿ÐµÑ€ Ð´Ð¾ÑÑ‚ÑƒÐ¿Ð½Ð° (Ñƒ Ð²Ð°Ñ {1})"@),
        ("update_download_size"@, "Ð Ð¾Ð·Ð¼Ñ–Ñ€ Ð·Ð°Ð²Ð°Ð½Ñ‚Ð°Ð¶ÐµÐ½Ð½Ñ: {0} ÐœÐ‘"@),
        ("update_changes"@, "Ð—Ð¼Ñ–Ð½Ð¸:"@),
        ("update_breaking_warning"@, "âš  Ð¦Ðµ Ð¾Ð½Ð¾Ð²Ð»ÐµÐ½Ð½Ñ Ð¼Ñ–ÑÑ‚Ð¸Ñ‚ÑŒ ÐºÑ€Ð¸Ñ‚Ð¸Ñ‡Ð½Ñ– Ð·Ð¼Ñ–Ð½Ð¸. Ð‘ÑƒÐ´ÑŒ Ð»Ð°ÑÐºÐ°, Ð¿ÐµÑ€ÐµÐ³Ð»ÑÐ½ÑŒÑ‚Ðµ Ð¶ÑƒÑ€Ð½Ð°Ð» Ð·Ð¼Ñ–Ð½."@),
        ("update_compatible"@, "Ð¦Ðµ ÑÑƒÐ¼Ñ–ÑÐ½Ðµ Ð¾Ð½Ð¾Ð²Ð»ÐµÐ½Ð½Ñ Ñ– Ð¼Ð¾Ð¶Ðµ Ð±ÑƒÑ‚Ð¸ Ð²ÑÑ‚Ð°Ð½Ð¾Ð²Ð»ÐµÐ½Ð¾ Ð±ÐµÐ·Ð¿ÐµÑ‡Ð½Ð¾."@),
        ("update_disable_info"@, "Ð©Ð¾Ð± Ð²Ð¸Ð¼ÐºÐ½ÑƒÑ‚Ð¸ Ð°Ð²Ñ‚Ð¾Ð¼Ð°Ñ‚Ð¸Ñ‡Ð½Ñ– Ð¾Ð½Ð¾Ð²Ð»ÐµÐ½Ð½Ñ, Ð¿ÐµÑ€ÐµÐ¹Ð´Ñ–Ñ‚ÑŒ Ð´Ð¾ ÐÐ°Ð»Ð°ÑˆÑ‚ÑƒÐ²Ð°Ð½Ð½Ñ > ÐžÐ½Ð¾Ð²Ð»ÐµÐ½Ð½Ñ"@),
        ("button_update_now"@, "ÐžÐ½Ð¾Ð²Ð¸Ñ‚Ð¸ Ð·Ð°Ñ€Ð°Ð·"@),
        ("button_ask_later"@, "Ð—Ð°Ð¿Ð¸Ñ‚Ð°Ñ‚Ð¸ Ð¿Ñ–Ð·Ð½Ñ–ÑˆÐµ"@),
        ("button_skip_version"@, "ÐŸÑ€Ð¾Ð¿ÑƒÑÑ‚Ð¸Ñ‚Ð¸ Ñ†ÑŽ Ð²ÐµÑ€ÑÑ–ÑŽ"@),
        ("update_downloading"@, "Ð—Ð°Ð²Ð°Ð½Ñ‚Ð°Ð¶ÐµÐ½Ð½Ñ Ð¾Ð½Ð¾Ð²Ð»ÐµÐ½Ð½Ñ..."@),
        ("update_download_complete"@, "Ð—Ð°Ð²Ð°Ð½Ñ‚Ð°Ð¶ÐµÐ½Ð½Ñ Ð·Ð°Ð²ÐµÑ€ÑˆÐµÐ½Ð¾! Ð—Ð°ÑÑ‚Ð¾ÑÑƒÐ²Ð°Ð½Ð½Ñ Ð¾Ð½Ð¾Ð²Ð»ÐµÐ½Ð½Ñ..."@),
        ("update_failed"@, "ÐŸÐ¾Ð¼Ð¸Ð»ÐºÐ° Ð¾Ð½Ð¾Ð²Ð»ÐµÐ½Ð½Ñ"@),
        ("update_download_failed"@, "ÐŸÐ¾Ð¼Ð¸Ð»ÐºÐ° Ð·Ð°Ð²Ð°Ð½Ñ‚Ð°Ð¶ÐµÐ½Ð½Ñ"@),
        ("settings_title"@, "ÐÐ°Ð»Ð°ÑˆÑ‚ÑƒÐ²Ð°Ð½Ð½Ñ"@),
        ("settings_current"@, "ÐŸÐ¾Ñ‚Ð¾Ñ‡Ð½Ñ– Ð½Ð°Ð»Ð°ÑˆÑ‚ÑƒÐ²Ð°Ð½Ð½Ñ:"@),
        ("settings_language"@, "ÐœÐ¾Ð²Ð°:"@),
        ("settings_min_space"@, "ÐœÑ–Ð½. Ð²Ñ–Ð»ÑŒÐ½Ð¾Ð³Ð¾ Ð¼Ñ–ÑÑ†Ñ:"@),
        ("settings_warn_delete"@, "ÐŸÐ¾Ð¿ÐµÑ€ÐµÐ´Ð¶Ð°Ñ‚Ð¸ Ð¿ÐµÑ€ÐµÐ´ Ð²Ð¸Ð´Ð°Ð»ÐµÐ½Ð½ÑÐ¼:"@),
        ("settings_active_schedules"@, "ÐÐºÑ‚Ð¸Ð²Ð½Ñ– Ñ€Ð¾Ð·ÐºÐ»Ð°Ð´Ð¸:"@),
        ("settings_edit_info"@, "Ð’Ñ–Ð´Ñ€ÐµÐ´Ð°Ð³ÑƒÐ¹Ñ‚Ðµ 'settings.toml' Ð´Ð»Ñ Ð·Ð¼Ñ–Ð½Ð¸ Ð½Ð°Ð»Ð°ÑˆÑ‚ÑƒÐ²Ð°Ð½ÑŒ."@),
        ("schedules_title"@, "Ð Ð¾Ð·ÐºÐ»Ð°Ð´Ð¸"@),
        ("schedules_none"@, "Ð©Ðµ Ð½Ðµ Ð½Ð°Ð»Ð°ÑˆÑ‚Ð¾Ð²Ð°Ð½Ð¾ Ð¶Ð¾Ð´Ð½Ð¾Ð³Ð¾ Ñ€Ð¾Ð·ÐºÐ»Ð°Ð´Ñƒ."@),
        ("schedules_add_info"@, "Ð”Ð¾Ð´Ð°Ð¹Ñ‚Ðµ Ñ€Ð¾Ð·ÐºÐ»Ð°Ð´ Ñƒ settings.toml, Ñ‰Ð¾Ð± Ð¿Ð¾Ñ‡Ð°Ñ‚Ð¸!"@),
        ("schedules_configured"@, "ÐÐ°Ð»Ð°ÑˆÑ‚Ð¾Ð²Ð°Ð½Ñ– Ñ€Ð¾Ð·ÐºÐ»Ð°Ð´Ð¸:"@),
        ("schedule_enabled"@, "Ð£Ð²Ñ–Ð¼ÐºÐ½ÐµÐ½Ð¾"@),
        ("schedule_disabled"@, "Ð’Ð¸Ð¼ÐºÐ½ÐµÐ½Ð¾"@),
        ("schedule_interval"@, "Ð†Ð½Ñ‚ÐµÑ€Ð²Ð°Ð»: {0} Ð´Ð½Ñ–Ð²"@),
        ("schedule_trigger_connect"@, "Ð—Ð°Ð¿ÑƒÑÐº Ð¿Ñ€Ð¸ Ð¿Ñ–Ð´ÐºÐ»ÑŽÑ‡ÐµÐ½Ð½Ñ–: {0}"@),
        ("schedule_destination"@, "ÐŸÑ€Ð¸Ð·Ð½Ð°Ñ‡ÐµÐ½Ð½Ñ: {0}"@),
        ("about_title"@, "ÐŸÑ€Ð¾ DriveGuard"@),
        ("about_version"@, "DriveGuard v{0}"@),
        ("about_features"@, "ÐœÐ¾Ð¶Ð»Ð¸Ð²Ð¾ÑÑ‚Ñ–:"@),
        ("about_feature_detection"@, "â€¢ Ð’Ð¸ÑÐ²Ð»ÐµÐ½Ð½Ñ Ð´Ð¸ÑÐºÑ–Ð² Ð·Ð° ÑÐµÑ€Ñ–Ð¹Ð½Ð¸Ð¼ Ð½Ð¾Ð¼ÐµÑ€Ð¾Ð¼"@),
        ("about_feature_schedules"@, "â€¢ Ð ÐµÐ·ÐµÑ€Ð²Ð½Ðµ ÐºÐ¾Ð¿Ñ–ÑŽÐ²Ð°Ð½Ð½Ñ Ð·Ð° Ñ€Ð¾Ð·ÐºÐ»Ð°Ð´Ð¾Ð¼"@),
        ("about_feature_copy"@, "â€¢ ÐŸÐ¾Ð²Ð½Ðµ ÐºÐ¾Ð¿Ñ–ÑŽÐ²Ð°Ð½Ð½Ñ Ñ„Ð°Ð¹Ð»Ñ–Ð² Ð·Ñ– Ð·Ð±ÐµÑ€ÐµÐ¶ÐµÐ½Ð½ÑÐ¼ ÑÑ‚Ñ€ÑƒÐºÑ‚ÑƒÑ€Ð¸"@),
        ("about_created"@, "Ð¡Ñ‚Ð²Ð¾Ñ€ÐµÐ½Ð¾ Ð· Rust ðŸ¦€"@),
    ]
}

/// The texts of a table.
pub open spec fn entries_of(t: Seq<(String, String)>) -> Seq<(Seq<char>, Seq<char>)> {
    t.map_values(|e: (String, String)| (e.0@, e.1@))
}

/// Both tables translate the same keys, in the same order.
pub proof fn tables_share_keys()
    ensures
        english_table().len() == ukrainian_table().len(),
        forall|i: int| 0 <= i < english_table().len() ==> (#[trigger] english_table()[i]).0 == ukrainian_table()[i].0,
{
}

/// The texts of the user interface in the locales it is translated to.
#[derive(Debug)]
pub struct Localization {
    pub translations: Vec<(String, Vec<(String, String)>)>,
    pub current_locale: String,
}

impl Localization {
    /// The text of `key` in the current locale, else in English, else
    /// `[Missing: key]`.
    pub open spec fn text_for(&self, key: Seq<char>) -> Seq<char> {
        match translation(self.translations@, self.current_locale@, key) {
            Some(t) => t,
            None => match translation(self.translations@, "en"@, key) {
                Some(t) => t,
                None => "[Missing: "@ + key + "]"@,
            },
        }
    }

    /// The built-in translations, with `locale` as the current locale.
    pub fn new(locale: &str) -> (r: Localization)
        ensures
            r.current_locale@ == locale@,
            r.translations@.len() == 2,
            r.translations@[0].0@ == "en"@,
            r.translations@[1].0@ == "uk"@,
            entries_of(r.translations@[0].1@) == english_table(),
            entries_of(r.translations@[1].1@) == ukrainian_table(),
    {
        let mut loc = Localization { translations: Vec::new(), current_locale: String::from_str(locale) };
        loc.load_all_translations();
        loc
    }

    fn load_all_translations(&mut self)
        ensures
            final(self).current_locale == old(self).current_locale,
            final(self).translations@.len() == old(self).translations@.len() + 2,
            final(self).translations@.take(old(self).translations@.len() as int) == old(self).translations@,
            final(self).translations@[old(self).translations@.len() as int].0@ == "en"@,
            final(self).translations@[old(self).translations@.len() + 1int].0@ == "uk"@,
            entries_of(final(self).translations@[old(self).translations@.len() as int].1@) == english_table(),
            entries_of(final(self).translations@[old(self).translations@.len() + 1int].1@) == ukrainian_table(),
    {
        let en = english();
        let uk = ukrainian();
        self.translations.push((String::from_str("en"), en));
        self.translations.push((String::from_str("uk"), uk));
        assert(self.translations@.take(old(self).translations@.len() as int) =~= old(self).translations@);
    }

    /// Makes `locale` current if it is translated; otherwise nothing changes.
    pub fn set_locale(&mut self, locale: &str)
        ensures
            final(self).translations@ == old(self).translations@,
            lookup(old(self).translations@, locale@) is Some ==> final(self).current_locale@ == locale@,
            lookup(old(self).translations@, locale@) is None ==> final(self).current_locale == old(self).current_locale,
    {
        if find_key(&self.translations, locale).is_some() {
            self.current_locale = String::from_str(locale);
        }
    }

    /// The text of `key` in the current locale, else in English, else
    /// `[Missing: key]`.
    pub fn get(&self, key: &str) -> (r: String)
        ensures
            r@ == self.text_for(key@),
    {
        match find_key(&self.translations, self.current_locale.as_str()) {
            Some(i) => match find_key(&self.translations[i].1, key) {
                Some(j) => return self.translations[i].1[j].1.clone(),
                None => {},
            },
            None => {},
        }
        match find_key(&self.translations, "en") {
            Some(i) => match find_key(&self.translations[i].1, key) {
                Some(j) => return self.translations[i].1[j].1.clone(),
                None => {},
            },
            None => {},
        }
        let mut missing = String::from_str("[Missing: ");
        missing.append(key);
        missing.append("]");
        missing
    }

    /// The text of `key` (as `get` finds it) with `{0}`, `{1}`, ... replaced
    /// by the arguments in turn.
    pub fn get_formatted(&self, key: &str, args: &[&str]) -> (r: String)
        ensures
            r@ == filled(self.text_for(key@), args@, args@.len()),
    {
        let mut out = self.get(key);
        let n = args.len();
        let mut i: usize = 0;
        while i < n
            invariant
                0 <= i <= n,
                n == args@.len(),
                out@ == filled(self.text_for(key@), args@, i as nat),
            decreases n - i,
        {
            let p = placeholder_text(i);
            proof {
                crate::text::lemma_decimal(i as nat);
            }
            out = replace_text(out.as_str(), p.as_str(), args[i]);
            i = i + 1;
        }
        out
    }
}

#[verifier::rlimit(50)]
fn english() -> (r: Vec<(String, String)>)
    ensures
        entries_of(r@) == english_table(),
{
    let mut t: Vec<(String, String)> = Vec::new();
    t.push(entry("app_name", "DriveGuard"));
    t.push(entry("app_tagline", "Automatic USB Drive Backup Tool"));
    t.push(entry("backup_starting", "Backup for drive {0} is about to start"));
    t.push(entry("backup_starting_in", "Starting in {0}"));
    t.push(entry("backup_in_progress", "Backup in progress..."));
    t.push(entry("backup_complete", "Backup completed successfully!"));
    t.push(entry("backup_failed", "Backup failed"));
    t.push(entry("backup_cancelled", "Backup cancelled by user"));
    t.push(entry("do_not_disconnect", "Please do not disconnect the drive while backup is in progress"));
    t.push(entry("files_copied", "{0} files copied"));
    t.push(entry("button_cancel", "Cancel"));
    t.push(entry("button_hide", "Hide"));
    t.push(entry("button_start_now", "Start Now"));
    t.push(entry("button_ok", "OK"));
    t.push(entry("button_close", "Close"));
    t.push(entry("menu_settings", "Settings"));
    t.push(entry("menu_schedules", "View Schedules"));
    t.push(entry("menu_about", "About"));
    t.push(entry("menu_exit", "Exit"));
    t.push(entry("update_available", "DriveGuard Update Available!"));
    t.push(entry("update_version_info", "Version {0} is now available (you have {1})"));
    t.push(entry("update_download_size", "Download size: {0} MB"));
    t.push(entry("update_changes", "Changes:"));
    t.push(entry("update_breaking_warning", "This update contains breaking changes. Please review the changelog."));
    t.push(entry("update_compatible", "This is a compatible update and can be installed safely."));
    t.push(entry("update_disable_info", "To disable automatic updates, go to Settings > Updates"));
    t.push(entry("button_update_now", "Update Now"));
    t.push(entry("button_ask_later", "Ask Me Later"));
    t.push(entry("button_skip_version", "Skip This Version"));
    t.push(entry("update_downloading", "Downloading update..."));
    t.push(entry("update_download_complete", "Download complete! Applying update..."));
    t.push(entry("update_failed", "Update Failed"));
    t.push(entry("update_download_failed", "Download Failed"));
    t.push(entry("settings_title", "Settings"));
    t.push(entry("settings_current", "Current Settings:"));
    t.push(entry("settings_language", "Language:"));
    t.push(entry("settings_min_space", "Min Free Space:"));
    t.push(entry("settings_warn_delete", "Warn Before Delete:"));
    t.push(entry("settings_active_schedules", "Active Schedules:"));
    t.push(entry("settings_edit_info", "Edit 'settings.toml' to change settings."));
    t.push(entry("schedules_title", "Schedules"));
    t.push(entry("schedules_none", "No schedules configured yet."));
    t.push(entry("schedules_add_info", "Add a schedule in settings.toml to get started!"));
    t.push(entry("schedules_configured", "Configured Schedules:"));
    t.push(entry("schedule_enabled", "Enabled"));
    t.push(entry("schedule_disabled", "Disabled"));
    t.push(entry("schedule_interval", "Interval: {0} days"));
    t.push(entry("schedule_trigger_connect", "Trigger on connect: {0}"));
    t.push(entry("schedule_destination", "Destination: {0}"));
    t.push(entry("about_title", "About DriveGuard"));
    t.push(entry("about_version", "DriveGuard v{0}"));
    t.push(entry("about_features", "Features:"));
    t.push(entry("about_feature_detection", "Drive detection by serial number"));
    t.push(entry("about_feature_schedules", "Schedule-based backups"));
    t.push(entry("about_feature_copy", "Full file copy with structure preservation"));
    t.push(entry("about_created", "Created with Rust ðŸ¦€"));
    assert(entries_of(t@) =~= english_table());
    t
}

#[verifier::rlimit(50)]
fn ukrainian() -> (r: Vec<(String, String)>)
    ensures
        entries_of(r@) == ukrainian_table(),
{
    let mut t: Vec<(String, String)> = Vec::new();
    t.push(entry("app_name", "DriveGuard"));
    t.push(entry("app_tagline", "ÐÐ²Ñ‚Ð¾Ð¼Ð°Ñ‚Ð¸Ñ‡Ð½Ðµ Ñ€ÐµÐ·ÐµÑ€Ð²Ð½Ðµ ÐºÐ¾Ð¿Ñ–ÑŽÐ²Ð°Ð½Ð½Ñ USB-Ð½Ð°ÐºÐ¾Ð¿Ð¸Ñ‡ÑƒÐ²Ð°Ñ‡Ñ–Ð²"));
    t.push(entry("backup_starting", "Ð ÐµÐ·ÐµÑ€Ð²Ð½Ðµ ÐºÐ¾Ð¿Ñ–ÑŽÐ²Ð°Ð½Ð½Ñ Ð´Ð¸ÑÐºÐ° {0} Ñ€Ð¾Ð·Ð¿Ð¾Ñ‡Ð½ÐµÑ‚ÑŒÑÑ"));
    t.push(entry("backup_starting_in", "ÐŸÐ¾Ñ‡Ð°Ñ‚Ð¾Ðº Ñ‡ÐµÑ€ÐµÐ· {0}"));
    t.push(entry("backup_in_progress", "Ð’Ð¸ÐºÐ¾Ð½ÑƒÑ”Ñ‚ÑŒÑÑ Ñ€ÐµÐ·ÐµÑ€Ð²Ð½Ðµ ÐºÐ¾Ð¿Ñ–ÑŽÐ²Ð°Ð½Ð½Ñ..."));
    t.push(entry("backup_complete", "Ð ÐµÐ·ÐµÑ€Ð²Ð½Ðµ ÐºÐ¾Ð¿Ñ–ÑŽÐ²Ð°Ð½Ð½Ñ ÑƒÑÐ¿Ñ–ÑˆÐ½Ð¾ Ð·Ð°Ð²ÐµÑ€ÑˆÐµÐ½Ð¾!"));
    t.push(entry("backup_failed", "ÐŸÐ¾Ð¼Ð¸Ð»ÐºÐ° Ñ€ÐµÐ·ÐµÑ€Ð²Ð½Ð¾Ð³Ð¾ ÐºÐ¾Ð¿Ñ–ÑŽÐ²Ð°Ð½Ð½Ñ"));
    t.push(entry("backup_cancelled", "Ð ÐµÐ·ÐµÑ€Ð²Ð½Ðµ ÐºÐ¾Ð¿Ñ–ÑŽÐ²Ð°Ð½Ð½Ñ ÑÐºÐ°ÑÐ¾Ð²Ð°Ð½Ð¾ ÐºÐ¾Ñ€Ð¸ÑÑ‚ÑƒÐ²Ð°Ñ‡ÐµÐ¼"));
    t.push(entry("do_not_disconnect", "âš  Ð‘ÑƒÐ´ÑŒ Ð»Ð°ÑÐºÐ°, Ð½Ðµ Ð²Ñ–Ð´'Ñ”Ð´Ð½ÑƒÐ¹Ñ‚Ðµ Ð´Ð¸ÑÐº Ð¿Ñ–Ð´ Ñ‡Ð°Ñ Ñ€ÐµÐ·ÐµÑ€Ð²Ð½Ð¾Ð³Ð¾ ÐºÐ¾Ð¿Ñ–ÑŽÐ²Ð°Ð½Ð½Ñ"));
    t.push(entry("files_copied", "Ð¡ÐºÐ¾Ð¿Ñ–Ð¹Ð¾Ð²Ð°Ð½Ð¾ Ñ„Ð°Ð¹Ð»Ñ–Ð²: {0}"));
    t.push(entry("button_cancel", "Ð¡ÐºÐ°ÑÑƒÐ²Ð°Ñ‚Ð¸"));
    t.push(entry("button_hide", "ÐŸÑ€Ð¸Ñ…Ð¾Ð²Ð°Ñ‚Ð¸"));
    t.push(entry("button_start_now", "ÐŸÐ¾Ñ‡Ð°Ñ‚Ð¸ Ð·Ð°Ñ€Ð°Ð·"));
    t.push(entry("button_ok", "Ð“Ð°Ñ€Ð°Ð·Ð´"));
    t.push(entry("button_close", "Ð—Ð°ÐºÑ€Ð¸Ñ‚Ð¸"));
    t.push(entry("menu_settings", "ÐÐ°Ð»Ð°ÑˆÑ‚ÑƒÐ²Ð°Ð½Ð½Ñ"));
    t.push(entry("menu_schedules", "ÐŸÐµÑ€ÐµÐ³Ð»ÑÐ½ÑƒÑ‚Ð¸ Ñ€Ð¾Ð·ÐºÐ»Ð°Ð´Ð¸"));
    t.push(entry("menu_about", "ÐŸÑ€Ð¾ Ð¿Ñ€Ð¾Ð³Ñ€Ð°Ð¼Ñƒ"));
    t.push(entry("menu_exit", "Ð’Ð¸Ñ…Ñ–Ð´"));
    t.push(entry("update_available", "ðŸŽ‰ Ð”Ð¾ÑÑ‚ÑƒÐ¿Ð½Ðµ Ð¾Ð½Ð¾Ð²Ð»ÐµÐ½Ð½Ñ DriveGuard!"));
    t.push(entry("update_version_info", "Ð’ÐµÑ€ÑÑ–Ñ {0} Ñ‚ÐµÐ¿ÐµÑ€ Ð´Ð¾ÑÑ‚ÑƒÐ¿Ð½Ð° (Ñƒ Ð²Ð°Ñ {1})"));
    t.push(entry("update_download_size", "Ð Ð¾Ð·Ð¼Ñ–Ñ€ Ð·Ð°Ð²Ð°Ð½Ñ‚Ð°Ð¶ÐµÐ½Ð½Ñ: {0} ÐœÐ‘"));
    t.push(entry("update_changes", "Ð—Ð¼Ñ–Ð½Ð¸:"));
    t.push(entry("update_breaking_warning", "âš  Ð¦Ðµ Ð¾Ð½Ð¾Ð²Ð»ÐµÐ½Ð½Ñ Ð¼Ñ–ÑÑ‚Ð¸Ñ‚ÑŒ ÐºÑ€Ð¸Ñ‚Ð¸Ñ‡Ð½Ñ– Ð·Ð¼Ñ–Ð½Ð¸. Ð‘ÑƒÐ´ÑŒ Ð»Ð°ÑÐºÐ°, Ð¿ÐµÑ€ÐµÐ³Ð»ÑÐ½ÑŒÑ‚Ðµ Ð¶ÑƒÑ€Ð½Ð°Ð» Ð·Ð¼Ñ–Ð½."));
    t.push(entry("update_compatible", "Ð¦Ðµ ÑÑƒÐ¼Ñ–ÑÐ½Ðµ Ð¾Ð½Ð¾Ð²Ð»ÐµÐ½Ð½Ñ Ñ– Ð¼Ð¾Ð¶Ðµ Ð±ÑƒÑ‚Ð¸ Ð²ÑÑ‚Ð°Ð½Ð¾Ð²Ð»ÐµÐ½Ð¾ Ð±ÐµÐ·Ð¿ÐµÑ‡Ð½Ð¾."));
    t.push(entry("update_disable_info", "Ð©Ð¾Ð± Ð²Ð¸Ð¼ÐºÐ½ÑƒÑ‚Ð¸ Ð°Ð²Ñ‚Ð¾Ð¼Ð°Ñ‚Ð¸Ñ‡Ð½Ñ– Ð¾Ð½Ð¾Ð²Ð»ÐµÐ½Ð½Ñ, Ð¿ÐµÑ€ÐµÐ¹Ð´Ñ–Ñ‚ÑŒ Ð´Ð¾ ÐÐ°Ð»Ð°ÑˆÑ‚ÑƒÐ²Ð°Ð½Ð½Ñ > ÐžÐ½Ð¾Ð²Ð»ÐµÐ½Ð½Ñ"));
    t.push(entry("button_update_now", "ÐžÐ½Ð¾Ð²Ð¸Ñ‚Ð¸ Ð·Ð°Ñ€Ð°Ð·"));
    t.push(entry("button_ask_later", "Ð—Ð°Ð¿Ð¸Ñ‚Ð°Ñ‚Ð¸ Ð¿Ñ–Ð·Ð½Ñ–ÑˆÐµ"));
    t.push(entry("button_skip_version", "ÐŸÑ€Ð¾Ð¿ÑƒÑÑ‚Ð¸Ñ‚Ð¸ Ñ†ÑŽ Ð²ÐµÑ€ÑÑ–ÑŽ"));
    t.push(entry("update_downloading", "Ð—Ð°Ð²Ð°Ð½Ñ‚Ð°Ð¶ÐµÐ½Ð½Ñ Ð¾Ð½Ð¾Ð²Ð»ÐµÐ½Ð½Ñ..."));
    t.push(entry("update_download_complete", "Ð—Ð°Ð²Ð°Ð½Ñ‚Ð°Ð¶ÐµÐ½Ð½Ñ Ð·Ð°Ð²ÐµÑ€ÑˆÐµÐ½Ð¾! Ð—Ð°ÑÑ‚Ð¾ÑÑƒÐ²Ð°Ð½Ð½Ñ Ð¾Ð½Ð¾Ð²Ð»ÐµÐ½Ð½Ñ..."));
    t.push(entry("update_failed", "ÐŸÐ¾Ð¼Ð¸Ð»ÐºÐ° Ð¾Ð½Ð¾Ð²Ð»ÐµÐ½Ð½Ñ"));
    t.push(entry("update_download_failed", "ÐŸÐ¾Ð¼Ð¸Ð»ÐºÐ° Ð·Ð°Ð²Ð°Ð½Ñ‚Ð°Ð¶ÐµÐ½Ð½Ñ"));
    t.push(entry("settings_title", "ÐÐ°Ð»Ð°ÑˆÑ‚ÑƒÐ²Ð°Ð½Ð½Ñ"));
    t.push(entry("settings_current", "ÐŸÐ¾Ñ‚Ð¾Ñ‡Ð½Ñ– Ð½Ð°Ð»Ð°ÑˆÑ‚ÑƒÐ²Ð°Ð½Ð½Ñ:"));
    t.push(entry("settings_language", "ÐœÐ¾Ð²Ð°:"));
    t.push(entry("settings_min_space", "ÐœÑ–Ð½. Ð²Ñ–Ð»ÑŒÐ½Ð¾Ð³Ð¾ Ð¼Ñ–ÑÑ†Ñ:"));
    t.push(entry("settings_warn_delete", "ÐŸÐ¾Ð¿ÐµÑ€ÐµÐ´Ð¶Ð°Ñ‚Ð¸ Ð¿ÐµÑ€ÐµÐ´ Ð²Ð¸Ð´Ð°Ð»ÐµÐ½Ð½ÑÐ¼:"));
    t.push(entry("settings_active_schedules", "ÐÐºÑ‚Ð¸Ð²Ð½Ñ– Ñ€Ð¾Ð·ÐºÐ»Ð°Ð´Ð¸:"));
    t.push(entry("settings_edit_info", "Ð’Ñ–Ð´Ñ€ÐµÐ´Ð°Ð³ÑƒÐ¹Ñ‚Ðµ 'settings.toml' Ð´Ð»Ñ Ð·Ð¼Ñ–Ð½Ð¸ Ð½Ð°Ð»Ð°ÑˆÑ‚ÑƒÐ²Ð°Ð½ÑŒ."));
    t.push(entry("schedules_title", "Ð Ð¾Ð·ÐºÐ»Ð°Ð´Ð¸"));
    t.push(entry("schedules_none", "Ð©Ðµ Ð½Ðµ Ð½Ð°Ð»Ð°ÑˆÑ‚Ð¾Ð²Ð°Ð½Ð¾ Ð¶Ð¾Ð´Ð½Ð¾Ð³Ð¾ Ñ€Ð¾Ð·ÐºÐ»Ð°Ð´Ñƒ."));
    t.push(entry("schedules_add_info", "Ð”Ð¾Ð´Ð°Ð¹Ñ‚Ðµ Ñ€Ð¾Ð·ÐºÐ»Ð°Ð´ Ñƒ settings.toml, Ñ‰Ð¾Ð± Ð¿Ð¾Ñ‡Ð°Ñ‚Ð¸!"));
    t.push(entry("schedules_configured", "ÐÐ°Ð»Ð°ÑˆÑ‚Ð¾Ð²Ð°Ð½Ñ– Ñ€Ð¾Ð·ÐºÐ»Ð°Ð´Ð¸:"));
    t.push(entry("schedule_enabled", "Ð£Ð²Ñ–Ð¼ÐºÐ½ÐµÐ½Ð¾"));
    t.push(entry("schedule_disabled", "Ð’Ð¸Ð¼ÐºÐ½ÐµÐ½Ð¾"));
    t.push(entry("schedule_interval", "Ð†Ð½Ñ‚ÐµÑ€Ð²Ð°Ð»: {0} Ð´Ð½Ñ–Ð²"));
    t.push(entry("schedule_trigger_connect", "Ð—Ð°Ð¿ÑƒÑÐº Ð¿Ñ€Ð¸ Ð¿Ñ–Ð´ÐºÐ»ÑŽÑ‡ÐµÐ½Ð½Ñ–: {0}"));
    t.push(entry("schedule_destination", "ÐŸÑ€Ð¸Ð·Ð½Ð°Ñ‡ÐµÐ½Ð½Ñ: {0}"));
    t.push(entry("about_title", "ÐŸÑ€Ð¾ DriveGuard"));
    t.push(entry("about_version", "DriveGuard v{0}"));
    t.push(entry("about_features", "ÐœÐ¾Ð¶Ð»Ð¸Ð²Ð¾ÑÑ‚Ñ–:"));
    t.push(entry("about_feature_detection", "â€¢ Ð’Ð¸ÑÐ²Ð»ÐµÐ½Ð½Ñ Ð´Ð¸ÑÐºÑ–Ð² Ð·Ð° ÑÐµÑ€Ñ–Ð¹Ð½Ð¸Ð¼ Ð½Ð¾Ð¼ÐµÑ€Ð¾Ð¼"));
    t.push(entry("about_feature_schedules", "â€¢ Ð ÐµÐ·ÐµÑ€Ð²Ð½Ðµ ÐºÐ¾Ð¿Ñ–ÑŽÐ²Ð°Ð½Ð½Ñ Ð·Ð° Ñ€Ð¾Ð·ÐºÐ»Ð°Ð´Ð¾Ð¼"));
    t.push(entry("about_feature_copy", "â€¢ ÐŸÐ¾Ð²Ð½Ðµ ÐºÐ¾Ð¿Ñ–ÑŽÐ²Ð°Ð½Ð½Ñ Ñ„Ð°Ð¹Ð»Ñ–Ð² Ð·Ñ– Ð·Ð±ÐµÑ€ÐµÐ¶ÐµÐ½Ð½ÑÐ¼ ÑÑ‚Ñ€ÑƒÐºÑ‚ÑƒÑ€Ð¸"));
    t.push(entry("about_created", "Ð¡Ñ‚Ð²Ð¾Ñ€ÐµÐ½Ð¾ Ð· Rust ðŸ¦€"));
    assert(entries_of(t@) =~= ukrainian_table());
    t
}

} // verus!
