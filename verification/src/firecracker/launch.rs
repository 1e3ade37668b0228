//! Which way an app's microVM is launched, and what becomes of what its
//! predecessor left.
use vstd::prelude::*;
use crate::firecracker::cred_restore::{read_restore_token, token_of};
use crate::firecracker::pidfile::{named_pid, take, PidFile};
use crate::firecracker::snapshot::{
    clear, cleared, files_present, has_files, is_suppressed, restore_matches, restore_ok, write_env, write_ref, CacheDir, CacheModel,
};
use crate::firecracker::snapshot_decision::{should_snapshot_on_cold_boot, stateful_launch_gate};
use crate::ipv4::{ipv4_text, ipv4_to_text};
use crate::number::{decimal, push_decimal};
use crate::polling::{poll_next, poll_step, PollStep};
use crate::sanitize::{lower_text, to_lower};
use crate::text::{concat3, opt_str, opt_text, text_eq};
use crate::words::{trim_text, trimmed};

verus! {

/// How long a guest app may take to answer after a boot, in milliseconds.
pub const READY_TIMEOUT: u64 = 30_000;

/// The first pause between two questions to the guest app, in milliseconds.
pub const READY_BACKOFF_START: u64 = 50;

/// The longest pause between two questions to the guest app, in milliseconds.
pub const READY_BACKOFF_CAP: u64 = 2_000;

/// How long the API socket may take to appear, in milliseconds.
pub const SOCKET_WAIT: u64 = 30_000;

/// The pause between two looks for the API socket, in milliseconds.
pub const SOCKET_POLL: u64 = 20;

/// The port of a guest's SSH server.
pub const GUEST_SSH_PORT: u16 = 2222;

/// The port of a workspace's code service.
pub const CODE_SERVICE_PORT: u16 = 8731;

/// The control port of a workspace's broker.
pub const GUEST_BROKER_CTRL_PORT: u16 = 8732;

/// The identity key of one version of an app: two versions of one app have
/// different keys, so that they can run side by side.
pub fn vm_key(uuid: &str, reff: &str) -> (r: String)
    ensures
        r@ == uuid@ + ":"@ + reff@,
{
    concat3(uuid, ":", reff)
}

/// The way a VM comes up.
#[derive(Debug, Clone, Copy, PartialEq, Eq, Structural)]
pub enum LaunchMode {
    /// It boots its image.
    Cold,
    /// It is loaded from the snapshot.
    Warm,
}

/// How a launch begins.
#[derive(Debug, Clone, Copy, PartialEq, Eq, Structural)]
pub struct LaunchStart {
    /// The process of a predecessor, to be killed if it is alive.
    pub stale_pid: Option<u32>,
    /// The way the VM comes up.
    pub mode: LaunchMode,
}

/// May the launch use the snapshot? A new version replaces the old one, whose
/// snapshot is of no use to it. A stateful app never restores. And a guest
/// that needs its credentials back restores only if their nonce is known.
pub open spec fn restores(
    cache: CacheModel,
    reff: Seq<char>,
    env_hash: Seq<char>,
    is_swap: bool,
    stateful: bool,
    needs_creds: bool,
) -> bool {
    !is_swap && !stateful && restore_ok(cache, reff, env_hash) && (needs_creds ==> token_of(cache) is Some)
}

/// What the cache directory holds once the way of a launch is chosen: a
/// snapshot that the launch may never use is gone.
pub open spec fn cache_at_launch(
    cache: CacheModel,
    reff: Seq<char>,
    env_hash: Seq<char>,
    is_swap: bool,
    stateful: bool,
) -> CacheModel {
    if is_swap {
        cleared(cache)
    } else if has_files(cache) && (stateful || !restore_ok(cache, reff, env_hash)) {
        cleared(cache)
    } else {
        cache
    }
}

/// Begins the launch of version `reff` of an app.
///
/// For a swap the old VM keeps serving: nothing is killed, and the new version
/// boots cold. Else the process that the pidfile names is a leftover, and the
/// snapshot is used if it fits.
pub fn launch_with_uuid(
    cache: &mut CacheDir,
    pid_file: &mut PidFile,
    reff: &str,
    env_hash: &str,
    is_swap: bool,
    stateful: bool,
    needs_creds: bool,
) -> (r: LaunchStart)
    ensures
        r.mode == if restores(old(cache)@, reff@, env_hash@, is_swap, stateful, needs_creds) {
            LaunchMode::Warm
        } else {
            LaunchMode::Cold
        },
        final(cache)@ == cache_at_launch(old(cache)@, reff@, env_hash@, is_swap, stateful),
        is_swap ==> r.stale_pid is None && *final(pid_file) == *old(pid_file),
        !is_swap ==> match r.stale_pid {
            Some(pid) => named_pid(opt_text(old(pid_file).contents)) == Some(pid as nat) && final(pid_file).contents is None,
            None => named_pid(opt_text(old(pid_file).contents)) is None && *final(pid_file) == *old(pid_file),
        },
{
    if is_swap {
        clear(cache);
        return LaunchStart { stale_pid: None, mode: LaunchMode::Cold };
    }
    let stale_pid = take(pid_file);
    let gate = stateful_launch_gate(stateful, files_present(cache));
    if gate.clear_legacy_snapshot {
        clear(cache);
    }
    if gate.block_warm_restore {
        return LaunchStart { stale_pid, mode: LaunchMode::Cold };
    }
    if restore_matches(cache, reff, env_hash) {
        let known: bool = match read_restore_token(cache) {
            Some(_) => true,
            None => false,
        };
        let mode = if !needs_creds || known {
            LaunchMode::Warm
        } else {
            LaunchMode::Cold
        };
        return LaunchStart { stale_pid, mode };
    }
    if files_present(cache) {
        clear(cache);
    }
    LaunchStart { stale_pid, mode: LaunchMode::Cold }
}

/// What follows an attempt to bring the VM up.
#[derive(Debug, Clone, Copy, PartialEq, Eq, Structural)]
pub enum LaunchNext {
    /// It serves; note its process.
    Serve,
    /// Boot cold.
    ColdBoot,
    /// The launch failed.
    Fail,
}

/// What follows an attempt to bring the VM up: a warm start that failed, in
/// itself or in giving the guest its credentials back, is followed by a cold
/// boot; a cold boot that failed ends the launch.
pub fn launch_next(mode: LaunchMode, up: bool) -> (r: LaunchNext)
    ensures
        r == if up {
            LaunchNext::Serve
        } else if mode == LaunchMode::Warm {
            LaunchNext::ColdBoot
        } else {
            LaunchNext::Fail
        },
{
    if up {
        LaunchNext::Serve
    } else {
        match mode {
            LaunchMode::Warm => LaunchNext::ColdBoot,
            LaunchMode::Cold => LaunchNext::Fail,
        }
    }
}

/// A swap boots cold and takes the old version's snapshot away.
pub proof fn law_swap_never_restores(cache: CacheModel, reff: Seq<char>, env_hash: Seq<char>, stateful: bool, needs_creds: bool)
    ensures
        !restores(cache, reff, env_hash, true, stateful, needs_creds),
        !has_files(cache_at_launch(cache, reff, env_hash, true, stateful)),
{
}

/// A stateful app boots cold, and no snapshot of it is left.
pub proof fn law_stateful_never_restores(cache: CacheModel, reff: Seq<char>, env_hash: Seq<char>, is_swap: bool, needs_creds: bool)
    ensures
        !restores(cache, reff, env_hash, is_swap, true, needs_creds),
        !has_files(cache_at_launch(cache, reff, env_hash, is_swap, true)),
{
}

/// A launch that restores finds the snapshot as it was, of that image and
/// that environment. One that boots cold leaves no snapshot of another image
/// or another environment behind.
pub proof fn law_restore_only_matching(
    cache: CacheModel,
    reff: Seq<char>,
    env_hash: Seq<char>,
    is_swap: bool,
    stateful: bool,
    needs_creds: bool,
)
    ensures
        restores(cache, reff, env_hash, is_swap, stateful, needs_creds) ==> cache_at_launch(cache, reff, env_hash, is_swap, stateful)
            == cache && restore_ok(cache, reff, env_hash),
        has_files(cache_at_launch(cache, reff, env_hash, is_swap, stateful)) ==> restore_ok(cache, reff, env_hash),
{
}

/// Does a cold boot that is up take a snapshot?
pub fn cold_boot_snapshots(cache: &CacheDir, stateful: bool) -> (r: bool)
    ensures
        r == (!stateful && !has_files(cache@) && !cache@.suppressed),
{
    should_snapshot_on_cold_boot(files_present(cache), is_suppressed(cache), stateful)
}

/// The directory after its snapshot was stamped by a cold boot: where there is
/// a snapshot and its image is known, image and environment are noted.
pub open spec fn stamped_cold(cache: CacheModel, image_ref: Option<Seq<char>>, env_hash: Option<Seq<char>>) -> CacheModel {
    match image_ref {
        Some(i) => if has_files(cache) {
            match env_hash {
                Some(e) => CacheModel { snapshot_ref: Some(i), snapshot_env: Some(e), ..cache },
                None => CacheModel { snapshot_ref: Some(i), ..cache },
            }
        } else {
            cache
        },
        None => cache,
    }
}

/// Stamps the snapshot that a cold boot took.
pub fn stamp_cold_snapshot(cache: &mut CacheDir, image_ref: Option<&str>, env_hash: Option<&str>)
    ensures
        final(cache)@ == stamped_cold(old(cache)@, opt_str(image_ref), opt_str(env_hash)),
{
    match image_ref {
        Some(i) => {
            if files_present(cache) {
                write_ref(cache, i);
                match env_hash {
                    Some(e) => {
                        write_env(cache, e);
                    },
                    None => {},
                }
            }
        },
        None => {},
    }
}

/// After a cold boot took its snapshot, the next launch of the same version
/// with the same environment restores it, and a launch of any other does not.
pub proof fn law_next_launch_restores(
    cache: CacheModel,
    image_ref: Seq<char>,
    env_hash: Seq<char>,
    other_ref: Seq<char>,
    other_env: Seq<char>,
)
    requires
        has_files(cache),
    ensures
        restores(stamped_cold(cache, Some(image_ref), Some(env_hash)), other_ref, other_env, false, false, false) <==> other_ref
            == image_ref && other_env == env_hash,
{
}

// ---- waiting ----------------------------------------------------------------------

/// What to do after one question to the guest app: any answer will do.
pub fn wait_until_ready(answered: bool, now_ms: u64, deadline_ms: u64, backoff_ms: u64) -> (r: PollStep)
    requires
        backoff_ms <= READY_BACKOFF_CAP,
    ensures
        r == poll_next(answered, now_ms, deadline_ms, backoff_ms, READY_BACKOFF_CAP),
{
    poll_step(answered, now_ms, deadline_ms, backoff_ms, READY_BACKOFF_CAP)
}

/// What to do after one look for the API socket.
#[derive(Debug, Clone, Copy, PartialEq, Eq, Structural)]
pub enum SocketWait {
    /// It is there.
    Ready,
    /// It did not appear in time.
    GiveUp,
    /// Look again after the poll interval.
    Sleep,
}

/// What to do after one look for the API socket.
pub fn wait_for_socket_within(there: bool, now_ms: u64, deadline_ms: u64) -> (r: SocketWait)
    ensures
        r == if there {
            SocketWait::Ready
        } else if now_ms >= deadline_ms {
            SocketWait::GiveUp
        } else {
            SocketWait::Sleep
        },
{
    if there {
        SocketWait::Ready
    } else if now_ms >= deadline_ms {
        SocketWait::GiveUp
    } else {
        SocketWait::Sleep
    }
}

/// What is said of an API socket that did not appear.
pub fn socket_missing(api_sock: &str) -> (r: String)
    ensures
        r@ == "firecracker API socket "@ + api_sock@ + " never appeared"@,
{
    concat3("firecracker API socket ", api_sock, " never appeared")
}

// ---- the console ------------------------------------------------------------------

/// Is the value of a switch on?
pub open spec fn switched_on(value: Seq<char>) -> bool {
    let v = lower_text(trimmed(value));
    v == "1"@ || v == "true"@ || v == "yes"@ || v == "on"@
}

/// Is a guest's console captured? Only where the switch is set, and on.
pub fn fc_debug_enabled(value: Option<&str>) -> (r: bool)
    ensures
        r == (value is Some && switched_on(value->Some_0@)),
{
    match value {
        Some(v) => {
            let t = trim_text(v);
            let low = to_lower(&t);
            text_eq(&low, "1") || text_eq(&low, "true") || text_eq(&low, "yes") || text_eq(&low, "on")
        },
        None => false,
    }
}

/// The file that a guest's console goes to, if any.
pub fn console_stdio<'a>(debug: bool, console_log: Option<&'a str>) -> (r: Option<&'a str>)
    ensures
        opt_str(r) == if debug {
            opt_str(console_log)
        } else {
            None
        },
{
    if debug {
        console_log
    } else {
        None
    }
}

// ---- where a guest is reached -------------------------------------------------------

/// An address and port of a guest.
pub open spec fn guest_addr(ip: nat, port: nat) -> Seq<char> {
    ipv4_text(ip) + ":"@ + decimal(port)
}

/// An address and port of a guest.
fn guest_addr_text(guest_ip: u32, port: u16) -> (r: String)
    ensures
        r@ == guest_addr(guest_ip as nat, port as nat),
{
    let mut out = ipv4_to_text(guest_ip);
    out.append(":");
    push_decimal(&mut out, port as u64);
    out
}

/// Where the guest's SSH server is reached.
pub fn guest_ssh_addr(guest_ip: u32) -> (r: String)
    ensures
        r@ == guest_addr(guest_ip as nat, GUEST_SSH_PORT as nat),
{
    guest_addr_text(guest_ip, GUEST_SSH_PORT)
}

/// Where a workspace's code service is reached.
pub fn guest_code_addr(guest_ip: u32) -> (r: String)
    ensures
        r@ == guest_addr(guest_ip as nat, CODE_SERVICE_PORT as nat),
{
    guest_addr_text(guest_ip, CODE_SERVICE_PORT)
}

/// Where a workspace's broker is controlled.
pub fn guest_broker_ctrl_addr(guest_ip: u32) -> (r: String)
    ensures
        r@ == guest_addr(guest_ip as nat, GUEST_BROKER_CTRL_PORT as nat),
{
    guest_addr_text(guest_ip, GUEST_BROKER_CTRL_PORT)
}

/// A launch restores exactly where it is no swap, the app is not stateful,
/// both files of a snapshot are there with the stamps of this image and this
/// environment, and, if the guest needs its credentials back, a nonce is noted
/// that is not blank.
pub proof fn law_what_a_restore_takes(
    cache: CacheModel,
    reff: Seq<char>,
    env_hash: Seq<char>,
    is_swap: bool,
    stateful: bool,
    needs_creds: bool,
)
    ensures
        restores(cache, reff, env_hash, is_swap, stateful, needs_creds) <==> {
            &&& !is_swap
            &&& !stateful
            &&& cache.vmstate
            &&& cache.mem
            &&& cache.snapshot_ref == Some(reff)
            &&& cache.snapshot_env == Some(env_hash)
            &&& needs_creds ==> cache.restore_token is Some && trimmed(cache.restore_token->Some_0).len() > 0
        },
{
}

/// A launch leaves a snapshot only where it fits the image and the
/// environment and the app could restore it; then nothing is changed. What
/// else is noted stays in any case, and a launch that is no swap changes
/// nothing where there is no snapshot.
pub proof fn law_what_a_launch_leaves(
    cache: CacheModel,
    reff: Seq<char>,
    env_hash: Seq<char>,
    is_swap: bool,
    stateful: bool,
)
    ensures
        ({
            let left = cache_at_launch(cache, reff, env_hash, is_swap, stateful);
            let fits = cache.vmstate && cache.mem && cache.snapshot_ref == Some(reff) && cache.snapshot_env == Some(env_hash);
            &&& left.vmstate && left.mem <==> !is_swap && !stateful && fits
            &&& left.vmstate && left.mem ==> left == cache
            &&& !is_swap && !(cache.vmstate && cache.mem) ==> left == cache
            &&& left.app_port == cache.app_port && left.link == cache.link && left.suppressed == cache.suppressed
            &&& is_swap ==> left.snapshot_ref is None && left.snapshot_env is None && left.restore_token is None
        }),
{
}

/// A snapshot is stamped only with what is known of it: nothing is noted
/// where there is none or its image is unknown, an environment only where it
/// is known, and nothing else is touched.
pub proof fn law_stamps_only_what_is_known(cache: CacheModel, image_ref: Option<Seq<char>>, env_hash: Option<Seq<char>>)
    ensures
        ({
            let after = stamped_cold(cache, image_ref, env_hash);
            let stamps = cache.vmstate && cache.mem && image_ref is Some;
            &&& !stamps ==> after == cache
            &&& stamps ==> after.snapshot_ref == image_ref
            &&& stamps && env_hash is Some ==> after.snapshot_env == env_hash
            &&& stamps && env_hash is None ==> after.snapshot_env == cache.snapshot_env
            &&& after.vmstate == cache.vmstate && after.mem == cache.mem && after.restore_token == cache.restore_token
            &&& after.app_port == cache.app_port && after.link == cache.link && after.suppressed == cache.suppressed
        }),
{
}

/// The console is switched on by four words, in any case and with any white
/// space around them, and by nothing else.
pub proof fn law_switch_words(value: Seq<char>, word: Seq<char>)
    requires
        lower_text(trimmed(value)) == word,
    ensures
        word == "1"@ ==> switched_on(value),
        word == "true"@ ==> switched_on(value),
        word == "yes"@ ==> switched_on(value),
        word == "on"@ ==> switched_on(value),
        switched_on(value) ==> seq!["1"@, "true"@, "yes"@, "on"@].contains(word),
{
    let all = seq!["1"@, "true"@, "yes"@, "on"@];
    assert(all[0] == "1"@ && all[1] == "true"@ && all[2] == "yes"@ && all[3] == "on"@);
}

} // verus!
