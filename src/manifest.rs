//! The update manifest that a source publishes, and the update settings that
//! the host application keeps.

use vstd::prelude::*;
use crate::text::first_index;

verus! {

/// What a manifest says of one released version.
#[derive(Clone, Debug)]
pub struct VersionInfo {
    pub release_date: String,
    pub breaking_changes: bool,
    pub min_compatible_version: String,
    pub download_url: String,
    pub checksum_sha256: String,
    pub changelog_url: String,
    pub file_size_bytes: u64,
    pub has_patch: bool,
    pub patch_url: Option<String>,
    pub patch_checksum: Option<String>,
    pub patch_required_from: Vec<String>,
}

/// The document a source serves: the newest version, and an entry per
/// version keyed by its version string. Keys are unique, as in a map; a
/// lookup takes the first entry under a key.
#[derive(Clone, Debug)]
pub struct UpdateManifest {
    pub latest_version: String,
    pub versions: Vec<(String, VersionInfo)>,
}

/// Position of the entry for `key`, or the number of entries when none has it.
pub open spec fn entry_index(entries: Seq<(String, VersionInfo)>, key: Seq<char>) -> nat {
    first_index(entries, |e: (String, VersionInfo)| e.0@ == key)
}

impl UpdateManifest {
    /// No two entries share a key.
    pub open spec fn wf(&self) -> bool {
        forall|i: int, j: int|
            0 <= i < j < self.versions@.len() ==> (#[trigger] self.versions@[i]).0@ != (#[trigger] self.versions@[j]).0@
    }

    /// The entry for `version`, if the manifest holds one. In a well-formed
    /// manifest it is the one entry under that key.
    pub fn version_info(&self, version: &String) -> (r: Option<&VersionInfo>)
        ensures
            self.wf() ==> forall|i: int|
                0 <= i < self.versions@.len() && (#[trigger] self.versions@[i]).0@ == version@ ==> r == Some(&self.versions@[i].1),
            entry_index(self.versions@, version@) < self.versions@.len() ==> r == Some(
                &self.versions@[entry_index(self.versions@, version@) as int].1,
            ),
            entry_index(self.versions@, version@) >= self.versions@.len() ==> r is None,
    {
        let n = self.versions.len();
        let mut i: usize = 0;
        while i < n
            invariant
                0 <= i <= n,
                n == self.versions@.len(),
                forall|j: int| 0 <= j < i ==> self.versions@[j].0@ != version@,
            decreases n - i,
        {
            if self.versions[i].0 == *version {
                proof {
                    crate::text::lemma_first_index_is(
                        self.versions@,
                        |e: (String, VersionInfo)| e.0@ == version@,
                        i as int,
                    );
                }
                return Some(&self.versions[i].1);
            }
            i = i + 1;
        }
        proof {
            crate::text::lemma_first_index_is(
                self.versions@,
                |e: (String, VersionInfo)| e.0@ == version@,
                n as int,
            );
        }
        None
    }
}

/// One place a manifest can be fetched from; priority 0 is tried first.
#[derive(Debug)]
pub struct UpdateSource {
    pub name: String,
    pub url: String,
    pub enabled: bool,
    pub priority: u8,
}

impl Clone for UpdateSource {
    fn clone(&self) -> (r: Self)
        ensures
            r == *self,
    {
        UpdateSource {
            name: self.name.clone(),
            url: self.url.clone(),
            enabled: self.enabled,
            priority: self.priority,
        }
    }
}

impl Default for UpdateSource {
    fn default() -> (r: Self)
        ensures
            r.name@ == "GitHub"@,
            r.url@ == "https://api.github.com/repos/ArsenijN/driveguard/releases"@,
            r.enabled,
            r.priority == 0,
    {
        UpdateSource {
            name: String::from_str("GitHub"),
            url: String::from_str("https://api.github.com/repos/ArsenijN/driveguard/releases"),
            enabled: true,
            priority: 0,
        }
    }
}

/// The update settings of the host application. Timestamps are RFC 3339 text.
#[derive(Debug)]
pub struct UpdateSettings {
    pub enabled: bool,
    pub check_frequency_days: u64,
    pub last_check: Option<String>,
    pub silent_updates: bool,
    pub wait_after_interaction_minutes: u64,
    pub auto_apply_patches: bool,
    pub skipped_versions: Vec<String>,
    pub allow_test_versions: bool,
    pub sources: Vec<UpdateSource>,
}

impl UpdateSettings {
    /// Both hold the same settings.
    pub open spec fn same_as(&self, other: &UpdateSettings) -> bool {
        &&& self.enabled == other.enabled
        &&& self.check_frequency_days == other.check_frequency_days
        &&& self.last_check == other.last_check
        &&& self.silent_updates == other.silent_updates
        &&& self.wait_after_interaction_minutes == other.wait_after_interaction_minutes
        &&& self.auto_apply_patches == other.auto_apply_patches
        &&& self.skipped_versions@ == other.skipped_versions@
        &&& self.allow_test_versions == other.allow_test_versions
        &&& self.sources@ == other.sources@
    }
}

impl Clone for UpdateSettings {
    fn clone(&self) -> (r: Self)
        ensures
            r.same_as(self),
    {
        let skipped = self.skipped_versions.clone();
        let sources = self.sources.clone();
        let last_check = self.last_check.clone();
        assert(skipped@ =~= self.skipped_versions@);
        assert(sources@ =~= self.sources@);
        UpdateSettings {
            enabled: self.enabled,
            check_frequency_days: self.check_frequency_days,
            last_check,
            silent_updates: self.silent_updates,
            wait_after_interaction_minutes: self.wait_after_interaction_minutes,
            auto_apply_patches: self.auto_apply_patches,
            skipped_versions: skipped,
            allow_test_versions: self.allow_test_versions,
            sources: sources,
        }
    }
}

fn source(name: &str, url: &str, priority: u8) -> (r: UpdateSource)
    ensures
        r.name@ == name@,
        r.url@ == url@,
        r.enabled,
        r.priority == priority,
{
    UpdateSource { name: String::from_str(name), url: String::from_str(url), enabled: true, priority }
}

/// The default update settings: checks enabled weekly, no silent updates,
/// test builds off, and three enabled sources with priorities 0, 1 and 2.
pub open spec fn default_update_settings(r: UpdateSettings) -> bool {
    &&& r.enabled
    &&& r.check_frequency_days == 7
    &&& r.last_check is None
    &&& !r.silent_updates
    &&& r.wait_after_interaction_minutes == 30
    &&& r.auto_apply_patches
    &&& r.skipped_versions@.len() == 0
    &&& !r.allow_test_versions
    &&& r.sources@.len() == 3
    &&& forall|i: int| 0 <= i < 3 ==> (#[trigger] r.sources@[i]).enabled && r.sources@[i].priority == i
}

/// Host and path of the project's own manifest document, without its
/// `.json` extension.
const CUSTOM_MANIFEST_STEM: &'static str = "arseniusgen.uk.to/projects/driveguard/manifest";

impl Default for UpdateSettings {
    fn default() -> (r: Self)
        ensures
            default_update_settings(r),
    {
        let mut sources: Vec<UpdateSource> = Vec::new();
        sources.push(source("GitHub", "https://github.com/ArsenijN/driveguard/releases", 0));
        let mut secure = String::from_str("https://");
        secure.append(CUSTOM_MANIFEST_STEM);
        secure.append(".json");
        let mut plain = String::from_str("http://");
        plain.append(CUSTOM_MANIFEST_STEM);
        plain.append(".json");
        sources.push(UpdateSource { name: String::from_str("Custom Server"), url: secure, enabled: true, priority: 1 });
        sources.push(UpdateSource { name: String::from_str("Custom Server"), url: plain, enabled: true, priority: 2 });
        UpdateSettings {
            enabled: true,
            check_frequency_days: 7,
            last_check: None,
            silent_updates: false,
            wait_after_interaction_minutes: 30,
            auto_apply_patches: true,
            skipped_versions: Vec::new(),
            allow_test_versions: false,
            sources,
        }
    }
}

} // verus!
