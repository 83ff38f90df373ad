//! The update-check policy: when a check is due, when a silent update may
//! be applied, which versions the user skipped, and in which order the
//! update sources are tried.

use vstd::prelude::*;
use crate::clock::{now, parse_rfc3339, rfc3339_seconds, Now, LAST_RFC3339_SECOND};
use crate::config::AppConfig;
use crate::error::UpdateError;
use crate::manifest::{default_update_settings, UpdateSettings, UpdateSource};
use crate::protocol::UpdateInfo;

verus! {

/// The version of the running application.
pub fn get_current_version() -> (r: &'static str)
    ensures
        r@ == "0.1.0"@,
{
    "0.1.0"
}

pub const SECONDS_PER_DAY: i128 = 86400;

pub const SECONDS_PER_MINUTE: i128 = 60;

/// Whole `unit`s in `elapsed` seconds, rounded toward zero.
pub open spec fn whole_units(elapsed: int, unit: int) -> int {
    if elapsed >= 0 {
        elapsed / unit
    } else {
        -((-elapsed) / unit)
    }
}

/// A check is due when checks are enabled and, if the last check's time is
/// known, at least `frequency_days` whole days have passed since it.
pub open spec fn check_due(enabled: bool, frequency_days: u64, last_check: Option<i64>, now: i64) -> bool {
    enabled && match last_check {
        Some(t) => whole_units(now - t, SECONDS_PER_DAY as int) >= frequency_days,
        None => true,
    }
}

/// A silent update may be applied when silent updates are on and at least
/// `wait_minutes` whole minutes have passed since the last recorded
/// interaction; never when none was recorded.
pub open spec fn silent_due(silent_updates: bool, wait_minutes: u64, last_interaction: Option<i64>, now: i64) -> bool {
    silent_updates && match last_interaction {
        Some(t) => whole_units(now - t, SECONDS_PER_MINUTE as int) >= wait_minutes,
        None => false,
    }
}

fn elapsed_units(now: i64, then: i64, unit: i128) -> (r: i128)
    requires
        unit > 0,
    ensures
        r == whole_units(now - then, unit as int),
{
    let elapsed = now as i128 - then as i128;
    if elapsed >= 0 {
        elapsed / unit
    } else {
        -((-elapsed) / unit)
    }
}

/// Whether a check is due at `now`, given the time of the last check as
/// parsed from the settings (`None` when never checked or unreadable).
pub fn check_due_at(enabled: bool, frequency_days: u64, last_check: Option<i64>, now: i64) -> (r: bool)
    ensures
        r == check_due(enabled, frequency_days, last_check, now),
{
    if !enabled {
        return false;
    }
    match last_check {
        Some(t) => elapsed_units(now, t, SECONDS_PER_DAY) >= frequency_days as i128,
        None => true,
    }
}

/// Whether a silent update may be applied at `now`.
pub fn silent_due_at(silent_updates: bool, wait_minutes: u64, last_interaction: Option<i64>, now: i64) -> (r: bool)
    ensures
        r == silent_due(silent_updates, wait_minutes, last_interaction, now),
{
    if !silent_updates {
        return false;
    }
    match last_interaction {
        Some(t) => elapsed_units(now, t, SECONDS_PER_MINUTE) >= wait_minutes as i128,
        None => false,
    }
}

/// A check is not due again within `frequency_days` days of the last one,
/// is due once that many days have passed, and is due when no check was
/// ever recorded.
pub proof fn check_cadence(frequency_days: u64, last_check: i64, now: i64)
    ensures
        0 <= now - last_check < frequency_days * 86400 ==> !check_due(true, frequency_days, Some(last_check), now),
        now - last_check >= frequency_days * 86400 ==> check_due(true, frequency_days, Some(last_check), now),
        check_due(true, frequency_days, None, now),
{
    let e = now - last_check;
    let f = frequency_days as int;
    if 0 <= e < f * 86400 {
        assert(e / 86400 < f) by (nonlinear_arith)
            requires
                0 <= e < f * 86400,
        ;
    }
    if e >= f * 86400 {
        assert(e / 86400 >= f) by (nonlinear_arith)
            requires
                e >= f * 86400,
                f >= 0,
        ;
    }
}

/// The enabled sources of `s` with priority `p`, in their order in `s`.
pub open spec fn with_priority(s: Seq<UpdateSource>, p: int) -> Seq<UpdateSource>
    decreases s.len(),
{
    if s.len() == 0 {
        seq![]
    } else {
        let rest = with_priority(s.drop_last(), p);
        if s.last().enabled && s.last().priority == p {
            rest.push(s.last())
        } else {
            rest
        }
    }
}

/// The enabled sources of `s` with priority below `upto`, by ascending
/// priority; sources of equal priority keep their order.
pub open spec fn priority_order(s: Seq<UpdateSource>, upto: int) -> Seq<UpdateSource>
    decreases upto,
{
    if upto <= 0 {
        seq![]
    } else {
        priority_order(s, upto - 1) + with_priority(s, upto - 1)
    }
}

/// The order in which sources are tried: enabled ones only, by ascending
/// priority, ties in list order.
pub open spec fn try_order(s: Seq<UpdateSource>) -> Seq<UpdateSource> {
    priority_order(s, 256)
}

/// The enabled sources of `sources` in the order they are tried.
pub fn sources_in_order(sources: &Vec<UpdateSource>) -> (r: Vec<UpdateSource>)
    ensures
        r@ == try_order(sources@),
{
    let n = sources.len();
    let mut out: Vec<UpdateSource> = Vec::new();
    let mut p: u16 = 0;
    while p < 256
        invariant
            0 <= p <= 256,
            n == sources@.len(),
            out@ == priority_order(sources@, p as int),
        decreases 256 - p,
    {
        let mut i: usize = 0;
        assert(sources@.take(0) =~= Seq::<UpdateSource>::empty());
        assert(out@ =~= priority_order(sources@, p as int) + with_priority(sources@.take(0), p as int));
        while i < n
            invariant
                0 <= i <= n,
                0 <= p < 256,
                n == sources@.len(),
                out@ == priority_order(sources@, p as int) + with_priority(sources@.take(i as int), p as int),
            decreases n - i,
        {
            let ghost t = sources@.take(i + 1);
            assert(t.drop_last() =~= sources@.take(i as int));
            assert(t.last() == sources@[i as int]);
            if sources[i].enabled && sources[i].priority as u16 == p {
                out.push(sources[i].clone());
                assert(out@ =~= priority_order(sources@, p as int) + with_priority(t, p as int));
            }
            i = i + 1;
        }
        assert(sources@.take(n as int) =~= sources@);
        p = p + 1;
    }
    out
}

/// What the source resolver asks for next: fetch the manifest at a URL, or
/// stop with the update found (`None`: none found at any source).
#[derive(Debug)]
pub enum ResolverStep {
    Fetch(String),
    Done(Option<UpdateInfo>),
}

/// Walks the enabled sources by priority until one reports an update.
/// Sources that fail or report "up to date" are passed over.
pub struct SourceResolver {
    pub order: Vec<UpdateSource>,
    pub position: usize,
}

impl SourceResolver {
    /// The position never passes the end of the order.
    pub open spec fn wf(&self) -> bool {
        self.position <= self.order@.len()
    }

    /// A resolver over `sources`, before its first fetch.
    pub fn new(sources: &Vec<UpdateSource>) -> (r: SourceResolver)
        ensures
            r.wf(),
            r.order@ == try_order(sources@),
            r.position == 0,
    {
        SourceResolver { order: sources_in_order(sources), position: 0 }
    }

    /// `r` is the step for the current position: fetch from its source, or
    /// stop with nothing found once every source has been tried.
    pub open spec fn step_for(&self, r: ResolverStep) -> bool {
        if self.position < self.order@.len() {
            r matches ResolverStep::Fetch(url) && url@ == self.order@[self.position as int].url@
        } else {
            r matches ResolverStep::Done(None)
        }
    }

    /// The step for the current position.
    pub fn current(&self) -> (r: ResolverStep)
        ensures
            self.step_for(r),
    {
        if self.position < self.order.len() {
            ResolverStep::Fetch(self.order[self.position].url.clone())
        } else {
            ResolverStep::Done(None)
        }
    }

    /// Takes the outcome of the current fetch: an update ends the walk with
    /// it; anything else moves on to the next source.
    pub fn on_result(&mut self, result: Result<Option<UpdateInfo>, UpdateError>) -> (r: ResolverStep)
        requires
            old(self).position < old(self).order@.len(),
        ensures
            final(self).wf(),
            final(self).order@ == old(self).order@,
            match result {
                Ok(Some(info)) => r == ResolverStep::Done(Some(info)) && final(self).position == old(self).position,
                _ => final(self).position == old(self).position + 1 && final(self).step_for(r),
            },
    {
        match result {
            Ok(Some(info)) => ResolverStep::Done(Some(info)),
            _ => {
                let n = self.order.len();
                assert(self.position < n);
                self.position = self.position + 1;
                self.current()
            },
        }
    }
}

/// The update-check policy over the host's update settings.
pub struct UpdateChecker {
    pub settings: UpdateSettings,
    /// When the user last interacted with an update prompt, in seconds
    /// since the epoch.
    pub last_interaction: Option<i64>,
}

/// The time of the last check as the settings record it, if readable.
pub open spec fn last_check_seconds(settings: UpdateSettings) -> Option<i64> {
    match settings.last_check {
        Some(t) => rfc3339_seconds(t@),
        None => None,
    }
}

impl UpdateChecker {
    /// A checker over the configuration's update settings, or the default
    /// settings when it has none; no interaction recorded yet.
    pub fn new(config: &AppConfig) -> (r: UpdateChecker)
        ensures
            config.general.update_settings matches Some(s) ==> r.settings.same_as(&s),
            config.general.update_settings is None ==> default_update_settings(r.settings),
            r.last_interaction is None,
    {
        let settings = match &config.general.update_settings {
            Some(s) => s.clone(),
            None => UpdateSettings::default(),
        };
        UpdateChecker { settings, last_interaction: None }
    }

    /// Whether a check is due at `now` (seconds since the epoch).
    pub fn should_check_at(&self, now: i64) -> (r: bool)
        ensures
            r == check_due(
                self.settings.enabled,
                self.settings.check_frequency_days,
                last_check_seconds(self.settings),
                now,
            ),
    {
        let last = match &self.settings.last_check {
            Some(t) => parse_rfc3339(t.as_str()),
            None => None,
        };
        check_due_at(self.settings.enabled, self.settings.check_frequency_days, last, now)
    }

    /// Whether a check is due now.
    pub fn should_check_now(&self) -> (r: bool)
        ensures
            exists|now: i64|
                r == check_due(
                    self.settings.enabled,
                    self.settings.check_frequency_days,
                    last_check_seconds(self.settings),
                    now,
                ),
            !self.settings.enabled ==> !r,
            self.settings.enabled && self.settings.last_check is None ==> r,
    {
        let current = now();
        self.should_check_at(current.seconds)
    }

    /// Records the current time as the time of the last check, and returns
    /// it. Within the years RFC 3339 covers, the recorded text reads back as
    /// that time, so no check is due at it unless the frequency is zero.
    pub fn mark_checked(&mut self) -> (n: Now)
        ensures
            final(self).settings.last_check == Some(n.text),
            0 <= n.seconds <= LAST_RFC3339_SECOND ==> last_check_seconds(final(self).settings) == Some(n.seconds),
            0 <= n.seconds <= LAST_RFC3339_SECOND && final(self).settings.check_frequency_days > 0 ==> !check_due(
                final(self).settings.enabled,
                final(self).settings.check_frequency_days,
                last_check_seconds(final(self).settings),
                n.seconds,
            ),
            final(self).settings.enabled == old(self).settings.enabled,
            final(self).settings.check_frequency_days == old(self).settings.check_frequency_days,
            final(self).settings.silent_updates == old(self).settings.silent_updates,
            final(self).settings.wait_after_interaction_minutes == old(self).settings.wait_after_interaction_minutes,
            final(self).settings.auto_apply_patches == old(self).settings.auto_apply_patches,
            final(self).settings.skipped_versions == old(self).settings.skipped_versions,
            final(self).settings.allow_test_versions == old(self).settings.allow_test_versions,
            final(self).settings.sources == old(self).settings.sources,
            final(self).last_interaction == old(self).last_interaction,
    {
        let n = now();
        self.settings.last_check = Some(n.text.clone());
        n
    }

    /// Records that the user interacted with an update prompt at `now`.
    pub fn record_interaction_at(&mut self, now: i64)
        ensures
            final(self).last_interaction == Some(now),
            final(self).settings == old(self).settings,
    {
        self.last_interaction = Some(now);
    }

    /// Records that the user interacted with an update prompt now.
    pub fn update_last_interaction(&mut self)
        ensures
            final(self).last_interaction is Some,
            final(self).settings == old(self).settings,
    {
        let current = now();
        self.record_interaction_at(current.seconds);
    }

    /// Whether a silent update may be applied at `now`.
    pub fn should_apply_silent_update_at(&self, now: i64) -> (r: bool)
        ensures
            r == silent_due(
                self.settings.silent_updates,
                self.settings.wait_after_interaction_minutes,
                self.last_interaction,
                now,
            ),
    {
        silent_due_at(
            self.settings.silent_updates,
            self.settings.wait_after_interaction_minutes,
            self.last_interaction,
            now,
        )
    }

    /// Whether a silent update may be applied now.
    pub fn should_apply_silent_update(&self) -> (r: bool)
        ensures
            exists|now: i64|
                r == silent_due(
                    self.settings.silent_updates,
                    self.settings.wait_after_interaction_minutes,
                    self.last_interaction,
                    now,
                ),
            !self.settings.silent_updates || self.last_interaction is None ==> !r,
    {
        let current = now();
        self.should_apply_silent_update_at(current.seconds)
    }

    /// Whether the user chose to skip `version`.
    pub fn is_version_skipped(&self, version: &str) -> (r: bool)
        ensures
            r == holds_text(self.settings.skipped_versions@, version@),
    {
        let target = String::from_str(version);
        let n = self.settings.skipped_versions.len();
        let mut i: usize = 0;
        while i < n
            invariant
                0 <= i <= n,
                n == self.settings.skipped_versions@.len(),
                target@ == version@,
                forall|j: int| 0 <= j < i ==> (#[trigger] self.settings.skipped_versions@[j])@ != version@,
            decreases n - i,
        {
            if self.settings.skipped_versions[i] == target {
                return true;
            }
            i = i + 1;
        }
        false
    }

    /// The enabled sources in the order they are tried.
    pub fn sources_to_try(&self) -> (r: Vec<UpdateSource>)
        ensures
            r@ == try_order(self.settings.sources@),
    {
        sources_in_order(&self.settings.sources)
    }
}

/// `list` holds the text `t`.
pub open spec fn holds_text(list: Seq<String>, t: Seq<char>) -> bool {
    exists|i: int| 0 <= i < list.len() && (#[trigger] list[i])@ == t
}

impl UpdateSettings {
    /// Adds `version` to the skipped versions unless it is there already.
    pub fn skip_version(&mut self, version: &str)
        ensures
            holds_text(old(self).skipped_versions@, version@) ==> final(self).skipped_versions@ == old(self).skipped_versions@,
            !holds_text(old(self).skipped_versions@, version@) ==> {
                &&& final(self).skipped_versions@.len() == old(self).skipped_versions@.len() + 1
                &&& final(self).skipped_versions@.drop_last() == old(self).skipped_versions@
                &&& final(self).skipped_versions@.last()@ == version@
            },
            final(self).enabled == old(self).enabled,
            final(self).check_frequency_days == old(self).check_frequency_days,
            final(self).last_check == old(self).last_check,
            final(self).silent_updates == old(self).silent_updates,
            final(self).wait_after_interaction_minutes == old(self).wait_after_interaction_minutes,
            final(self).auto_apply_patches == old(self).auto_apply_patches,
            final(self).allow_test_versions == old(self).allow_test_versions,
            final(self).sources == old(self).sources,
    {
        let target = String::from_str(version);
        let n = self.skipped_versions.len();
        let mut i: usize = 0;
        while i < n
            invariant
                0 <= i <= n,
                n == self.skipped_versions@.len(),
                target@ == version@,
                forall|j: int| 0 <= j < i ==> (#[trigger] self.skipped_versions@[j])@ != version@,
            decreases n - i,
        {
            if self.skipped_versions[i] == target {
                return;
            }
            i = i + 1;
        }
        self.skipped_versions.push(target);
        assert(self.skipped_versions@.drop_last() =~= old(self).skipped_versions@);
    }
}

} // verus!
