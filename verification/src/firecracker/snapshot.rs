//! What lies in an app's snapshot cache directory, and when a warm start may
//! use it.
//!
//! A warm start needs both `snap.vmstate` and `snap.mem`. Companion files say
//! which image and which environment the snapshot was taken from; whatever
//! does not match is booted cold.
use vstd::prelude::*;
use crate::number::{decimal, decimal_reads_back, decimal_text, is_digit, law_decimal_round_trip, parse_unsigned, parsed};
use crate::path::{join, joined};
use crate::text::{opt_text, text_eq};
use crate::words::{trim_text, trimmed, trimmed_fixed};

verus! {

/// The link that the guest of a snapshot was frozen with.
#[derive(Debug)]
pub struct SnapshotLink {
    /// `/30` slot in the tap subnet.
    pub slot: u32,
    /// Normalized tap subnet.
    pub tap_subnet: String,
    /// TAP of the VM generation.
    pub tap_name: String,
}

/// A `SnapshotLink` with its texts as sequences of characters.
pub struct LinkModel {
    pub slot: u32,
    pub tap_subnet: Seq<char>,
    pub tap_name: Seq<char>,
}

impl View for SnapshotLink {
    type V = LinkModel;

    open spec fn view(&self) -> LinkModel {
        LinkModel { slot: self.slot, tap_subnet: self.tap_subnet@, tap_name: self.tap_name@ }
    }
}

/// What was found in a snapshot cache directory. A file that is absent, or
/// that could not be read as text, is `None`.
#[derive(Debug)]
pub struct CacheDir {
    /// Is `snap.vmstate` a file?
    pub vmstate: bool,
    /// Is `snap.mem` a file?
    pub mem: bool,
    /// Contents of `.snapshot_ref`: the image the snapshot was taken from.
    pub snapshot_ref: Option<String>,
    /// Contents of `.snapshot_env`: the environment fingerprint of its guest.
    pub snapshot_env: Option<String>,
    /// Contents of `.app_port`: the port that the app was found to listen on.
    pub app_port: Option<String>,
    /// Contents of `.snapshot_restore_token`: the nonce frozen in the guest's RAM.
    pub restore_token: Option<String>,
    /// The link that the guest was frozen with.
    pub link: Option<SnapshotLink>,
    /// Is the `.no-snapshot` marker a file?
    pub suppressed: bool,
}

/// A `CacheDir` with its texts as sequences of characters.
#[verifier::ext_equal]
pub struct CacheModel {
    pub vmstate: bool,
    pub mem: bool,
    pub snapshot_ref: Option<Seq<char>>,
    pub snapshot_env: Option<Seq<char>>,
    pub app_port: Option<Seq<char>>,
    pub restore_token: Option<Seq<char>>,
    pub link: Option<LinkModel>,
    pub suppressed: bool,
}

impl View for CacheDir {
    type V = CacheModel;

    open spec fn view(&self) -> CacheModel {
        CacheModel {
            vmstate: self.vmstate,
            mem: self.mem,
            snapshot_ref: opt_text(self.snapshot_ref),
            snapshot_env: opt_text(self.snapshot_env),
            app_port: opt_text(self.app_port),
            restore_token: opt_text(self.restore_token),
            link: match self.link {
                Some(l) => Some(l@),
                None => None,
            },
            suppressed: self.suppressed,
        }
    }
}

/// The directory without any of its files.
pub open spec fn empty_cache() -> CacheModel {
    CacheModel {
        vmstate: false,
        mem: false,
        snapshot_ref: None,
        snapshot_env: None,
        app_port: None,
        restore_token: None,
        link: None,
        suppressed: false,
    }
}

/// Are both snapshot files there?
pub open spec fn has_files(c: CacheModel) -> bool {
    c.vmstate && c.mem
}

/// Is there a snapshot, taken from the image `image_ref`?
pub open spec fn ref_ok(c: CacheModel, image_ref: Seq<char>) -> bool {
    has_files(c) && c.snapshot_ref == Some(image_ref)
}

/// Is there a snapshot, taken from that image with that environment?
pub open spec fn restore_ok(c: CacheModel, image_ref: Seq<char>, env_hash: Seq<char>) -> bool {
    ref_ok(c, image_ref) && c.snapshot_env == Some(env_hash)
}

/// The directory after its snapshot was cleared: the snapshot files and the
/// companions that describe them are gone, the rest is as it was.
pub open spec fn cleared(c: CacheModel) -> CacheModel {
    CacheModel { vmstate: false, mem: false, snapshot_ref: None, snapshot_env: None, restore_token: None, ..c }
}

/// The port noted in the directory: a number up to 65535, white space around it aside.
pub open spec fn noted_port(c: CacheModel) -> Option<nat> {
    match c.app_port {
        Some(t) => parsed(trimmed(t), 65535),
        None => None,
    }
}

impl CacheDir {
    /// A directory without any of the files.
    pub fn new() -> (r: Self)
        ensures
            r@ == empty_cache(),
    {
        CacheDir {
            vmstate: false,
            mem: false,
            snapshot_ref: None,
            snapshot_env: None,
            app_port: None,
            restore_token: None,
            link: None,
            suppressed: false,
        }
    }
}

/// Path of the vmstate file.
pub fn vmstate_path(cache_dir: &str) -> (r: String)
    ensures
        r@ == joined(cache_dir@, "snap.vmstate"@),
{
    join(cache_dir, "snap.vmstate")
}

/// Path of the RAM dump.
pub fn mem_path(cache_dir: &str) -> (r: String)
    ensures
        r@ == joined(cache_dir@, "snap.mem"@),
{
    join(cache_dir, "snap.mem")
}

/// Path of the companion that names the image.
pub fn ref_path(cache_dir: &str) -> (r: String)
    ensures
        r@ == joined(cache_dir@, ".snapshot_ref"@),
{
    join(cache_dir, ".snapshot_ref")
}

/// Path of the companion that holds the environment fingerprint.
pub fn env_path(cache_dir: &str) -> (r: String)
    ensures
        r@ == joined(cache_dir@, ".snapshot_env"@),
{
    join(cache_dir, ".snapshot_env")
}

/// Path of the companion that holds the app's port.
pub fn app_port_path(cache_dir: &str) -> (r: String)
    ensures
        r@ == joined(cache_dir@, ".app_port"@),
{
    join(cache_dir, ".app_port")
}

/// Path of the marker that suppresses snapshots.
pub fn suppress_path(cache_dir: &str) -> (r: String)
    ensures
        r@ == joined(cache_dir@, ".no-snapshot"@),
{
    join(cache_dir, ".no-snapshot")
}

/// The per-app directory: `<data_dir>/apps/<uuid>`.
pub open spec fn app_dir(data_dir: Seq<char>, uuid: Seq<char>) -> Seq<char> {
    joined(joined(data_dir, "apps"@), uuid)
}

/// The snapshot cache directory of an app: `<data_dir>/apps/<uuid>/cache`.
pub fn cache_dir(data_dir: &str, uuid: &str) -> (r: String)
    ensures
        r@ == joined(app_dir(data_dir@, uuid@), "cache"@),
{
    join(&join(&join(data_dir, "apps"), uuid), "cache")
}

/// Are both snapshot files there, so that a warm load is possible?
pub fn files_present(cache: &CacheDir) -> (r: bool)
    ensures
        r == has_files(cache@),
{
    cache.vmstate && cache.mem
}

/// Notes the image that a fresh snapshot was taken from.
pub fn write_ref(cache: &mut CacheDir, image_ref: &str)
    ensures
        final(cache)@ == (CacheModel { snapshot_ref: Some(image_ref@), ..old(cache)@ }),
{
    cache.snapshot_ref = Some(image_ref.to_owned());
}

/// Notes the environment fingerprint that a fresh snapshot's guest was made with.
pub fn write_env(cache: &mut CacheDir, env_hash: &str)
    ensures
        final(cache)@ == (CacheModel { snapshot_env: Some(env_hash@), ..old(cache)@ }),
{
    cache.snapshot_env = Some(env_hash.to_owned());
}

/// Is there a snapshot, and was it taken from `image_ref`?
pub fn ref_matches(cache: &CacheDir, image_ref: &str) -> (r: bool)
    ensures
        r == ref_ok(cache@, image_ref@),
{
    if !files_present(cache) {
        return false;
    }
    match &cache.snapshot_ref {
        Some(stored) => text_eq(stored, image_ref),
        None => false,
    }
}

/// Was the snapshot's guest made with the environment fingerprint `env_hash`?
pub fn env_matches(cache: &CacheDir, env_hash: &str) -> (r: bool)
    ensures
        r == (cache@.snapshot_env == Some(env_hash@)),
{
    match &cache.snapshot_env {
        Some(stored) => text_eq(stored, env_hash),
        None => false,
    }
}

/// May a warm start use the snapshot: is it there, and were both its image
/// and its environment the ones asked for?
pub fn restore_matches(cache: &CacheDir, image_ref: &str, env_hash: &str) -> (r: bool)
    ensures
        r == restore_ok(cache@, image_ref@, env_hash@),
{
    ref_matches(cache, image_ref) && env_matches(cache, env_hash)
}

/// Clears the snapshot: both files and the companions that describe them.
pub fn clear(cache: &mut CacheDir)
    ensures
        final(cache)@ == cleared(old(cache)@),
{
    cache.vmstate = false;
    cache.mem = false;
    cache.snapshot_ref = None;
    cache.snapshot_env = None;
    cache.restore_token = None;
}

/// Notes the port that the app was found to listen on.
pub fn write_app_port(cache: &mut CacheDir, port: u16)
    ensures
        final(cache)@ == (CacheModel { app_port: Some(decimal(port as nat)), ..old(cache)@ }),
{
    cache.app_port = Some(decimal_text(port as u64));
}

/// The noted port; a text that is no port counts as none.
pub fn read_app_port(cache: &CacheDir) -> (r: Option<u16>)
    ensures
        match r {
            Some(p) => noted_port(cache@) == Some(p as nat),
            None => noted_port(cache@) is None,
        },
{
    match &cache.app_port {
        Some(t) => {
            let inner = trim_text(t);
            match parse_unsigned(&inner, 65535) {
                Some(n) => Some(n as u16),
                None => None,
            }
        },
        None => None,
    }
}

/// Marks the app so that a cold boot takes no snapshot of it.
pub fn suppress(cache: &mut CacheDir)
    ensures
        final(cache)@ == (CacheModel { suppressed: true, ..old(cache)@ }),
{
    cache.suppressed = true;
}

/// Are cold-boot snapshots of the app suppressed?
pub fn is_suppressed(cache: &CacheDir) -> (r: bool)
    ensures
        r == cache@.suppressed,
{
    cache.suppressed
}

/// The link that the snapshot's guest was frozen with, if noted.
pub fn read_link(cache: &CacheDir) -> (r: Option<&SnapshotLink>)
    ensures
        match r {
            Some(l) => cache@.link == Some(l@),
            None => cache@.link is None,
        },
{
    match &cache.link {
        Some(l) => Some(l),
        None => None,
    }
}

/// Notes the link that a fresh snapshot's guest was frozen with.
pub fn write_link(cache: &mut CacheDir, link: SnapshotLink)
    ensures
        final(cache)@ == (CacheModel { link: Some(link@), ..old(cache)@ }),
{
    cache.link = Some(link);
}

/// A cleared directory offers no warm start, whatever is asked for, and
/// clearing it again changes nothing.
pub proof fn law_cleared_never_restores(c: CacheModel, image_ref: Seq<char>, env_hash: Seq<char>)
    ensures
        !ref_ok(cleared(c), image_ref),
        !restore_ok(cleared(c), image_ref, env_hash),
        cleared(cleared(c)) == cleared(c),
{
}

/// After a snapshot was taken and both companions were written, a warm start
/// is offered for exactly that image with exactly that environment.
pub proof fn law_stamped_restores_exactly(c: CacheModel, image_ref: Seq<char>, env_hash: Seq<char>, other_ref: Seq<char>, other_env: Seq<char>)
    ensures
        ({
            let stamped = CacheModel {
                vmstate: true,
                mem: true,
                snapshot_ref: Some(image_ref),
                snapshot_env: Some(env_hash),
                ..c
            };
            restore_ok(stamped, other_ref, other_env) <==> other_ref == image_ref && other_env == env_hash
        }),
{
}

/// A noted port is read back.
pub proof fn law_app_port_round_trip(c: CacheModel, port: u16)
    ensures
        noted_port(CacheModel { app_port: Some(decimal(port as nat)), ..c }) == Some(port as nat),
{
    let d = decimal(port as nat);
    decimal_reads_back(port as nat);
    assert(is_digit(d[0]) && is_digit(d[d.len() - 1]));
    trimmed_fixed(d);
    law_decimal_round_trip(port as nat, 65535);
}

/// Clearing the snapshot leaves nothing of it, whatever there was of it: what
/// else is noted stays, and directories that differ in their snapshots alone
/// are the same once cleared.
pub proof fn law_clear_spares_the_rest(a: CacheModel, b: CacheModel)
    requires
        a.app_port == b.app_port,
        a.link == b.link,
        a.suppressed == b.suppressed,
    ensures
        cleared(a) == cleared(b),
        cleared(a).app_port == a.app_port,
        cleared(a).link == a.link,
        cleared(a).suppressed == a.suppressed,
        !cleared(a).vmstate && !cleared(a).mem,
        cleared(a).snapshot_ref is None && cleared(a).snapshot_env is None && cleared(a).restore_token is None,
{
}

/// Half a snapshot is none: without either file nothing is offered.
pub proof fn law_half_a_snapshot_is_none(c: CacheModel, image_ref: Seq<char>, env_hash: Seq<char>)
    requires
        !c.vmstate || !c.mem,
    ensures
        !has_files(c),
        !ref_ok(c, image_ref),
        !restore_ok(c, image_ref, env_hash),
{
}

} // verus!
