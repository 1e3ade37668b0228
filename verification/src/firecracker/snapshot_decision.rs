//! When a cold boot takes a snapshot, and what must not be frozen into one.
use vstd::prelude::*;
use crate::text::{strs, text_eq};

verus! {

/// Does a cold boot take a snapshot? A stateful app never; any other app
/// where it has none yet and snapshots are not suppressed.
pub fn should_snapshot_on_cold_boot(files_present: bool, suppressed: bool, stateful: bool) -> (r: bool)
    ensures
        r == (!stateful && !files_present && !suppressed),
{
    if stateful {
        return false;
    }
    !files_present && !suppressed
}

/// The environment keys that must not be in a snapshotted guest.
pub open spec fn forbidden_keys() -> Seq<Seq<char>> {
    seq!["TABBIFY_GIT_REMOTE"@, "TABBIFY_GIT_TOKEN"@, "TABBIFY_BROKER_TOKEN"@]
}

/// The environment keys that must not be in a snapshotted guest.
pub fn snapshot_forbidden_env_keys() -> (r: [&'static str; 3])
    ensures
        strs(r@) == forbidden_keys(),
{
    let keys: [&'static str; 3] = ["TABBIFY_GIT_REMOTE", "TABBIFY_GIT_TOKEN", "TABBIFY_BROKER_TOKEN"];
    assert(strs(keys@) =~= forbidden_keys());
    keys
}

/// Is the text a forbidden key?
pub open spec fn is_forbidden(key: Seq<char>) -> bool {
    forbidden_keys().contains(key)
}

/// Forbidden are Git's remote, Git's token and the broker's token, and nothing
/// else.
pub proof fn law_forbidden_names(key: Seq<char>)
    ensures
        is_forbidden(key) <==> key == "TABBIFY_GIT_REMOTE"@ || key == "TABBIFY_GIT_TOKEN"@ || key == "TABBIFY_BROKER_TOKEN"@,
{
    let all = forbidden_keys();
    assert(all[0] == "TABBIFY_GIT_REMOTE"@ && all[1] == "TABBIFY_GIT_TOKEN"@ && all[2] == "TABBIFY_BROKER_TOKEN"@);
}

/// The forbidden key that a text is, if it is one.
fn forbidden_hit(key: &str) -> (r: Option<&'static str>)
    ensures
        match r {
            Some(k) => k@ == key@ && is_forbidden(key@),
            None => !is_forbidden(key@),
        },
{
    let keys = snapshot_forbidden_env_keys();
    let mut i: usize = 0;
    while i < 3
        invariant
            i <= 3,
            strs(keys@) == forbidden_keys(),
            forall|j: int| 0 <= j < i ==> forbidden_keys()[j] != key@,
        decreases 3 - i,
    {
        assert(strs(keys@)[i as int] == keys@[i as int]@);
        if text_eq(keys[i], key) {
            assert(forbidden_keys().contains(key@));
            return Some(keys[i]);
        }
        i += 1;
    }
    assert(!forbidden_keys().contains(key@));
    None
}

/// May an environment with these keys be frozen into a snapshot? If not, the
/// first forbidden key is named, so that no value needs to be logged.
pub fn extra_env_is_snapshot_safe(keys: &[&str]) -> (r: Result<(), &'static str>)
    ensures
        match r {
            Ok(_) => forall|i: int| 0 <= i < keys@.len() ==> !is_forbidden(#[trigger] strs(keys@)[i]),
            Err(k) => exists|i: int|
                0 <= i < keys@.len() && #[trigger] strs(keys@)[i] == k@ && is_forbidden(k@) && forall|j: int|
                    0 <= j < i ==> !is_forbidden(#[trigger] strs(keys@)[j]),
        },
        r is Ok <==> forall|i: int|
            0 <= i < keys@.len() ==> (#[trigger] keys@[i])@ != "TABBIFY_GIT_REMOTE"@ && keys@[i]@ != "TABBIFY_GIT_TOKEN"@ && keys@[i]@
                != "TABBIFY_BROKER_TOKEN"@,
{
    let mut i: usize = 0;
    while i < keys.len()
        invariant
            i <= keys@.len(),
            forall|j: int| 0 <= j < i ==> !is_forbidden(#[trigger] strs(keys@)[j]),
            forall|j: int|
                0 <= j < i ==> (#[trigger] keys@[j])@ != "TABBIFY_GIT_REMOTE"@ && keys@[j]@ != "TABBIFY_GIT_TOKEN"@ && keys@[j]@
                    != "TABBIFY_BROKER_TOKEN"@,
        decreases keys@.len() - i,
    {
        proof {
            law_forbidden_names(keys@[i as int]@);
        }
        assert(strs(keys@)[i as int] == keys@[i as int]@);
        match forbidden_hit(keys[i]) {
            Some(hit) => return Err(hit),
            None => {},
        }
        i += 1;
    }
    Ok(())
}

/// What a launch does about snapshots because of the app's data disk.
#[derive(Debug, Clone, Copy, PartialEq, Eq, Structural)]
pub struct StatefulLaunchGate {
    /// No warm restore for this launch.
    pub block_warm_restore: bool,
    /// A snapshot from before the app was stateful must be deleted.
    pub clear_legacy_snapshot: bool,
}

/// What a launch does about snapshots because of the app's data disk: a
/// stateful app never restores, and a snapshot that it still has is deleted.
pub fn stateful_launch_gate(stateful: bool, snapshot_files_present: bool) -> (r: StatefulLaunchGate)
    ensures
        r == (StatefulLaunchGate {
            block_warm_restore: stateful,
            clear_legacy_snapshot: stateful && snapshot_files_present,
        }),
{
    StatefulLaunchGate { block_warm_restore: stateful, clear_legacy_snapshot: stateful && snapshot_files_present }
}

/// The broker route that drops the guest's credentials before a snapshot.
pub const PRE_SNAPSHOT_SCRUB_PATH: &'static str = "/v1/pre-snapshot-scrub";

/// Must the guest's credentials be dropped before a snapshot? Only a
/// workspace holds any.
pub fn must_scrub_before_snapshot(is_workspace: bool) -> (r: bool)
    ensures
        r == is_workspace,
{
    is_workspace
}

} // verus!
