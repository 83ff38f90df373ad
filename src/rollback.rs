//! Choosing the backup to roll back to: among the backup directories that
//! hold an executable, the one whose name denotes the highest version.

use vstd::prelude::*;
use crate::error::UpdateError;
use crate::version::{parse_version, version_lt, Version};

verus! {

/// A backup directory: its name (such as `v0.1.3`) and whether it holds an
/// executable.
#[derive(Clone, Debug)]
pub struct BackupCandidate {
    pub name: String,
    pub has_executable: bool,
}

/// A backup that can be restored: it holds an executable and its name
/// denotes a version.
pub open spec fn usable(c: BackupCandidate) -> bool {
    c.has_executable && parse_version(c.name@) is Some
}

pub open spec fn backup_version(c: BackupCandidate) -> Version {
    parse_version(c.name@).unwrap()
}

/// `i` is the backup to restore: usable, of a version no other usable
/// backup exceeds, and the first such.
pub open spec fn is_rollback_choice(cs: Seq<BackupCandidate>, i: int) -> bool {
    &&& 0 <= i < cs.len()
    &&& usable(cs[i])
    &&& forall|j: int| 0 <= j < cs.len() && usable(#[trigger] cs[j]) ==> !version_lt(backup_version(cs[i]), backup_version(cs[j]))
    &&& forall|j: int| 0 <= j < i && usable(#[trigger] cs[j]) ==> version_lt(backup_version(cs[j]), backup_version(cs[i]))
}

/// Picks the backup to restore, newest version first; `NoBackupAvailable`
/// when no backup holds an executable under a version name.
pub fn choose_rollback(candidates: &Vec<BackupCandidate>) -> (r: Result<usize, UpdateError>)
    ensures
        (exists|j: int| 0 <= j < candidates@.len() && usable(#[trigger] candidates@[j])) ==> (r matches Ok(i)
            && is_rollback_choice(candidates@, i as int)),
        !(exists|j: int| 0 <= j < candidates@.len() && usable(#[trigger] candidates@[j])) ==> r
            == Err::<usize, UpdateError>(UpdateError::NoBackupAvailable),
{
    let n = candidates.len();
    let mut best: Option<(usize, Version)> = None;
    let mut i: usize = 0;
    while i < n
        invariant
            0 <= i <= n,
            n == candidates@.len(),
            match best {
                None => forall|j: int| 0 <= j < i ==> !usable(#[trigger] candidates@[j]),
                Some((b, v)) => {
                    &&& b < i
                    &&& usable(candidates@[b as int])
                    &&& v == backup_version(candidates@[b as int])
                    &&& forall|j: int| 0 <= j < i && usable(#[trigger] candidates@[j]) ==> !version_lt(v, backup_version(candidates@[j]))
                    &&& forall|j: int| 0 <= j < b && usable(#[trigger] candidates@[j]) ==> version_lt(backup_version(candidates@[j]), v)
                },
            },
        decreases n - i,
    {
        let c = &candidates[i];
        if c.has_executable {
            match Version::parse(c.name.as_str()) {
                Ok(v) => {
                    match best {
                        None => {
                            best = Some((i, v));
                        },
                        Some((b, bv)) => {
                            if v.is_newer_than(&bv) {
                                proof {
                                    lemma_version_lt_trans_all(candidates@, i as int, bv, v);
                                }
                                best = Some((i, v));
                            }
                        },
                    }
                },
                Err(_) => {},
            }
        }
        i = i + 1;
    }
    match best {
        Some((b, _)) => Ok(b),
        None => Err(UpdateError::NoBackupAvailable),
    }
}

proof fn lemma_version_lt_trans_all(cs: Seq<BackupCandidate>, i: int, old_best: Version, v: Version)
    requires
        version_lt(old_best, v),
        forall|j: int| 0 <= j < i && usable(#[trigger] cs[j]) ==> !version_lt(old_best, backup_version(cs[j])),
    ensures
        forall|j: int| 0 <= j < i && usable(#[trigger] cs[j]) ==> version_lt(backup_version(cs[j]), v),
{
    assert forall|j: int| 0 <= j < i && usable(#[trigger] cs[j]) implies version_lt(backup_version(cs[j]), v) by {
        crate::version::lemma_version_order(backup_version(cs[j]), old_best, v);
    }
}

} // verus!
