//! Fetching app artifacts from the object store, and keeping them.
use vstd::prelude::*;
use vstd::utf8::{decode_utf8, encode_utf8, encode_utf8_decode_utf8, encode_utf8_valid_utf8, valid_utf8};
use crate::firecracker::link_error::{debug_quoted, debug_text};
use crate::http_status::{is_status, status_line, status_text};
use crate::manifest::AppManifest;
use crate::number::{decimal, decimal_injective, parse_unsigned, parsed, push_decimal};
use crate::path::{join, joined};
use crate::text::{concat2, concat3, text_eq, trim_end_char, without_end};
use crate::words::{trim_text, trimmed};

verus! {

/// An app's artifacts at one version.
#[derive(Debug)]
pub struct FetchedApp {
    /// The version.
    pub version: u64,
    /// The manifest.
    pub manifest: AppManifest,
    /// The entry file, where the runtime needs it in memory; else empty.
    pub wasm: Vec<u8>,
    /// Where the entry file is kept.
    pub cached_path: String,
}

/// Why an artifact could not be fetched.
#[derive(Debug)]
pub enum FetchError {
    /// There is no such object.
    NotFound(String),
    /// The store could not be talked to.
    Transport(String),
    /// The version is no number; also what is wrong with it.
    BadLatest(String, String),
    /// The manifest does not parse.
    Manifest(String),
    /// The cache could not be read or written there.
    CacheIo(String, String),
}

impl FetchError {
    /// What is said of the error.
    pub fn message(&self) -> (r: String)
        ensures
            r@ == match self {
                FetchError::NotFound(uuid) => "app "@ + uuid@ + " not found at this version/object"@,
                FetchError::Transport(e) => "http transport: "@ + e@,
                FetchError::BadLatest(body, why) => "bad `latest` body "@ + debug_quoted(body@) + ": "@ + why@,
                FetchError::Manifest(e) => "manifest parse: "@ + e@,
                FetchError::CacheIo(path, e) => "cache io at "@ + path@ + ": "@ + e@,
            },
    {
        match self {
            FetchError::NotFound(uuid) => concat3("app ", uuid, " not found at this version/object"),
            FetchError::Transport(e) => concat2("http transport: ", e),
            FetchError::BadLatest(body, why) => {
                let quoted = debug_text(body);
                let mut out = concat3("bad `latest` body ", &quoted, ": ");
                out.append(why);
                out
            },
            FetchError::Manifest(e) => concat2("manifest parse: ", e),
            FetchError::CacheIo(path, e) => {
                let mut out = concat3("cache io at ", path, ": ");
                out.append(e);
                out
            },
        }
    }
}

/// What is wrong with a text that is no number of 64 bits.
pub uninterp spec fn u64_fault(text: Seq<char>) -> Seq<char>;

/// `str::parse::<u64>` fails on a text that is no such number, and the error
/// says what is wrong with it. Which words it chooses is left to the name.
#[verifier::external_body]
fn u64_fault_text(text: &str) -> (r: String)
    requires
        parsed(text@, u64::MAX as nat) is None,
    ensures
        r@ == u64_fault(text@),
{
    match text.parse::<u64>() {
        Ok(_) => String::new(),
        Err(e) => e.to_string(),
    }
}

/// Where artifacts come from, and where they are kept.
#[derive(Debug)]
pub struct S3Fetcher {
    /// Base address of the store, without a slash at its end.
    pub base_url: String,
    /// Directory that the cache lies in.
    pub data_dir: String,
}

/// The directory of one version of an app.
pub open spec fn version_dir(data_dir: Seq<char>, uuid: Seq<char>, version: nat) -> Seq<char> {
    joined(joined(joined(data_dir, "apps"@), uuid), "v"@ + decimal(version))
}

/// The address of an object of one version of an app.
pub open spec fn object_at(base_url: Seq<char>, uuid: Seq<char>, version: nat, name: Seq<char>) -> Seq<char> {
    base_url + "/apps/"@ + uuid + "/v"@ + decimal(version) + "/"@ + name
}

impl S3Fetcher {
    /// A fetcher on that store, keeping what it fetches in `data_dir`.
    pub fn new(base_url: &str, data_dir: &str) -> (r: Self)
        ensures
            r.base_url@ == without_end(base_url@, '/'),
            r.data_dir@ == data_dir@,
    {
        S3Fetcher { base_url: trim_end_char(base_url, '/'), data_dir: data_dir.to_owned() }
    }

    /// The directory that one version of an app is kept in.
    pub fn cache_dir(&self, uuid: &str, version: u64) -> (r: String)
        ensures
            r@ == version_dir(self.data_dir@, uuid@, version as nat),
    {
        let mut v: String = "v".to_owned();
        push_decimal(&mut v, version);
        join(&join(&join(&self.data_dir, "apps"), uuid), &v)
    }

    /// The address that holds an app's current version.
    pub fn latest_url(&self, uuid: &str) -> (r: String)
        ensures
            r@ == self.base_url@ + "/apps/"@ + uuid@ + "/latest"@,
    {
        let mut out = concat3(&self.base_url, "/apps/", uuid);
        out.append("/latest");
        out
    }

    /// The address of an object of one version of an app.
    pub fn object_url(&self, uuid: &str, version: u64, name: &str) -> (r: String)
        ensures
            r@ == object_at(self.base_url@, uuid@, version as nat, name@),
    {
        let mut out = concat3(&self.base_url, "/apps/", uuid);
        out.append("/v");
        push_decimal(&mut out, version);
        out.append("/");
        out.append(name);
        out
    }

    /// Plans the fetch of one version of an app.
    pub fn fetch_version(&self, uuid: &str, version: u64) -> (r: FetchPlan)
        ensures
            r.dir@ == version_dir(self.data_dir@, uuid@, version as nat),
            r.manifest_path@ == joined(version_dir(self.data_dir@, uuid@, version as nat), "manifest.toml"@),
            r.manifest_url@ == object_at(self.base_url@, uuid@, version as nat, "manifest.toml"@),
    {
        let dir = self.cache_dir(uuid, version);
        let manifest_path = join(&dir, "manifest.toml");
        let manifest_url = self.object_url(uuid, version, "manifest.toml");
        FetchPlan { dir, manifest_path, manifest_url }
    }

    /// Plans the fetch of the entry file that the manifest names. Only the
    /// WebAssembly runtime needs it in memory.
    pub fn fetch_entry(&self, uuid: &str, version: u64, manifest: &AppManifest) -> (r: EntryPlan)
        ensures
            r.path@ == joined(version_dir(self.data_dir@, uuid@, version as nat), manifest.runtime.entry@),
            r.url@ == object_at(self.base_url@, uuid@, version as nat, manifest.runtime.entry@),
            r.in_memory == needs_memory(*manifest),
    {
        let dir = self.cache_dir(uuid, version);
        EntryPlan {
            path: join(&dir, &manifest.runtime.entry),
            url: self.object_url(uuid, version, &manifest.runtime.entry),
            in_memory: text_eq(&manifest.runtime.runtime_type, "wasm-http"),
        }
    }

    /// The app that was fetched; `bytes` is the entry file, where it was read.
    pub fn fetched(&self, uuid: &str, version: u64, manifest: AppManifest, bytes: Vec<u8>) -> (r: FetchedApp)
        ensures
            r.version == version,
            r.manifest == manifest,
            r.wasm@ == if needs_memory(manifest) {
                bytes@
            } else {
                Seq::empty()
            },
            r.cached_path@ == joined(version_dir(self.data_dir@, uuid@, version as nat), manifest.runtime.entry@),
    {
        let plan = self.fetch_entry(uuid, version, &manifest);
        let wasm: Vec<u8> = if plan.in_memory {
            bytes
        } else {
            Vec::new()
        };
        FetchedApp { version, manifest, wasm, cached_path: plan.path }
    }
}

/// Does the runtime need the entry file in memory? Only the WebAssembly
/// runtime does.
pub open spec fn needs_memory(manifest: AppManifest) -> bool {
    manifest.runtime.runtime_type@ == "wasm-http"@
}

/// Where one version of an app and its manifest are.
#[derive(Debug)]
pub struct FetchPlan {
    /// Its directory.
    pub dir: String,
    /// Where the manifest is kept.
    pub manifest_path: String,
    /// Where it comes from.
    pub manifest_url: String,
}

/// Where an entry file is.
#[derive(Debug)]
pub struct EntryPlan {
    /// Where it is kept.
    pub path: String,
    /// Where it comes from.
    pub url: String,
    /// Is it needed in memory?
    pub in_memory: bool,
}

/// The version that the store names: a number, white space around it aside.
pub fn latest_version(body: &str) -> (r: Result<u64, FetchError>)
    ensures
        match parsed(trimmed(body@), u64::MAX as nat) {
            Some(n) => r is Ok && r->Ok_0 == n,
            None => r matches Err(FetchError::BadLatest(b, why)) && b@ == trimmed(body@) && why@ == u64_fault(trimmed(body@)),
        },
{
    let t = trim_text(body);
    match parse_unsigned(&t, u64::MAX) {
        Some(n) => Ok(n),
        None => {
            let why = u64_fault_text(&t);
            Err(FetchError::BadLatest(t, why))
        },
    }
}

/// Judges the status of an answer of the store. A store that hides what is
/// missing behind a refusal is taken at its word.
pub fn judge_status(status: u16, uuid: &str) -> (r: Result<(), FetchError>)
    requires
        is_status(status),
    ensures
        r is Ok <==> status == 200,
        status == 404 || status == 403 ==> (r matches Err(FetchError::NotFound(u)) && u@ == uuid@),
        status != 200 && status != 404 && status != 403 ==> (r matches Err(FetchError::Transport(e)) && e@ == "unexpected status "@
            + status_line(status)),
{
    if status == 200 {
        Ok(())
    } else if status == 404 || status == 403 {
        Err(FetchError::NotFound(uuid.to_owned()))
    } else {
        let st = status_text(status);
        Err(FetchError::Transport(concat2("unexpected status ", &st)))
    }
}

// ---- the order of a fetch ------------------------------------------------------------------

/// What to do next to fetch one version of an app.
#[derive(Debug, Clone, Copy, PartialEq, Eq, Structural)]
pub enum FetchAction {
    /// Read the kept manifest.
    LoadManifest,
    /// Get the manifest from the store.
    GetManifest,
    /// Parse the manifest.
    ParseManifest,
    /// Keep the manifest.
    StoreManifest,
    /// Look for the entry file that the manifest names.
    FindEntry,
    /// Get the entry file from the store.
    GetEntry,
    /// Keep the entry file.
    StoreEntry,
    /// Read the entry file into memory.
    LoadEntry,
    /// Nothing: the fetch is over.
    Stop,
}

/// The state of a fetch.
#[derive(Debug, Clone, Copy, PartialEq, Eq, Structural)]
pub struct FetchRun {
    /// Was the manifest kept already?
    pub kept: bool,
    /// What to do next.
    pub next: FetchAction,
    /// Did the manifest parse?
    pub parsed: bool,
    /// Is the entry file there?
    pub entry: bool,
    /// Did an action fail?
    pub failed: bool,
}

/// The first state of a fetch.
pub open spec fn fetch_start(manifest_kept: bool) -> FetchRun {
    FetchRun {
        kept: manifest_kept,
        next: if manifest_kept {
            FetchAction::LoadManifest
        } else {
            FetchAction::GetManifest
        },
        parsed: false,
        entry: false,
        failed: false,
    }
}

/// The state after the next action succeeded or not; looking for the entry
/// file succeeds where it is there. `in_memory` says whether the runtime needs
/// the entry file in memory.
pub open spec fn fetch_after(s: FetchRun, ok: bool, in_memory: bool) -> FetchRun {
    let stopped = FetchRun { next: FetchAction::Stop, failed: true, ..s };
    let loaded = if in_memory {
        FetchAction::LoadEntry
    } else {
        FetchAction::Stop
    };
    match s.next {
        FetchAction::LoadManifest => if ok {
            FetchRun { next: FetchAction::ParseManifest, ..s }
        } else {
            stopped
        },
        FetchAction::GetManifest => if ok {
            FetchRun { next: FetchAction::ParseManifest, ..s }
        } else {
            stopped
        },
        FetchAction::ParseManifest => if !ok {
            stopped
        } else if s.kept {
            FetchRun { next: FetchAction::FindEntry, parsed: true, ..s }
        } else {
            FetchRun { next: FetchAction::StoreManifest, parsed: true, ..s }
        },
        FetchAction::StoreManifest => if ok {
            FetchRun { next: FetchAction::FindEntry, ..s }
        } else {
            stopped
        },
        FetchAction::FindEntry => if ok {
            FetchRun { next: loaded, entry: true, ..s }
        } else {
            FetchRun { next: FetchAction::GetEntry, ..s }
        },
        FetchAction::GetEntry => if ok {
            FetchRun { next: FetchAction::StoreEntry, ..s }
        } else {
            stopped
        },
        FetchAction::StoreEntry => if ok {
            FetchRun { next: loaded, entry: true, ..s }
        } else {
            stopped
        },
        FetchAction::LoadEntry => if ok {
            FetchRun { next: FetchAction::Stop, ..s }
        } else {
            stopped
        },
        FetchAction::Stop => s,
    }
}

impl FetchRun {
    /// The first state of a fetch.
    pub fn new(manifest_kept: bool) -> (r: Self)
        ensures
            r == fetch_start(manifest_kept),
    {
        FetchRun {
            kept: manifest_kept,
            next: if manifest_kept {
                FetchAction::LoadManifest
            } else {
                FetchAction::GetManifest
            },
            parsed: false,
            entry: false,
            failed: false,
        }
    }

    /// Goes on after the next action succeeded or not.
    pub fn advance(&mut self, ok: bool, in_memory: bool)
        ensures
            *final(self) == fetch_after(*old(self), ok, in_memory),
    {
        if !ok && self.next != FetchAction::FindEntry {
            if self.next != FetchAction::Stop {
                self.failed = true;
                self.next = FetchAction::Stop;
            }
            return;
        }
        let loaded: FetchAction = if in_memory {
            FetchAction::LoadEntry
        } else {
            FetchAction::Stop
        };
        match self.next {
            FetchAction::LoadManifest => {
                self.next = FetchAction::ParseManifest;
            },
            FetchAction::GetManifest => {
                self.next = FetchAction::ParseManifest;
            },
            FetchAction::ParseManifest => {
                self.parsed = true;
                self.next = if self.kept {
                    FetchAction::FindEntry
                } else {
                    FetchAction::StoreManifest
                };
            },
            FetchAction::StoreManifest => {
                self.next = FetchAction::FindEntry;
            },
            FetchAction::FindEntry => {
                if ok {
                    self.entry = true;
                    self.next = loaded;
                } else {
                    self.next = FetchAction::GetEntry;
                }
            },
            FetchAction::GetEntry => {
                self.next = FetchAction::StoreEntry;
            },
            FetchAction::StoreEntry => {
                self.entry = true;
                self.next = loaded;
            },
            FetchAction::LoadEntry => {
                self.next = FetchAction::Stop;
            },
            FetchAction::Stop => {},
        }
    }
}

/// The state after a number of actions.
pub open spec fn fetch_all(s: FetchRun, events: Seq<bool>, in_memory: bool) -> FetchRun
    decreases events.len(),
{
    if events.len() == 0 {
        s
    } else {
        fetch_after(fetch_all(s, events.drop_last(), in_memory), events.last(), in_memory)
    }
}

/// A manifest is kept only once it parsed, the store is not asked for a
/// manifest that is kept, and a fetch that succeeded has the manifest and the
/// entry file.
pub proof fn law_fetch(kept: bool, events: Seq<bool>, in_memory: bool)
    ensures
        ({
            let s = fetch_all(fetch_start(kept), events, in_memory);
            &&& s.kept == kept
            &&& s.next == FetchAction::StoreManifest ==> s.parsed && !kept
            &&& s.next == FetchAction::GetManifest ==> !kept
            &&& s.next == FetchAction::FindEntry || s.next == FetchAction::GetEntry || s.next == FetchAction::StoreEntry ==> s.parsed
            &&& s.failed ==> s.next == FetchAction::Stop
            &&& s.next == FetchAction::LoadEntry ==> s.parsed && s.entry && in_memory
            &&& s.next == FetchAction::Stop && !s.failed ==> s.parsed && s.entry
        }),
    decreases events.len(),
{
    if events.len() > 0 {
        law_fetch(kept, events.drop_last(), in_memory);
    }
}

/// The action number `i` of a fetch in which nothing fails: the manifest is
/// read where it is kept, else got from the store and kept once it parsed. The
/// entry file is got and kept where it is not there, and read where it is
/// needed in memory.
pub open spec fn fetch_script(kept: bool, there: bool, in_memory: bool, i: int) -> FetchAction {
    let known: int = if kept {
        2
    } else {
        3
    };
    let found: int = known + if there {
        1int
    } else {
        3
    };
    if i == 0 {
        if kept {
            FetchAction::LoadManifest
        } else {
            FetchAction::GetManifest
        }
    } else if i == 1 {
        FetchAction::ParseManifest
    } else if i < known {
        FetchAction::StoreManifest
    } else if i == known {
        FetchAction::FindEntry
    } else if i < found {
        if i == known + 1 {
            FetchAction::GetEntry
        } else {
            FetchAction::StoreEntry
        }
    } else if i == found && in_memory {
        FetchAction::LoadEntry
    } else {
        FetchAction::Stop
    }
}

/// Do the first `n` actions of the script go as they do where nothing fails?
pub open spec fn fetch_goes_well(kept: bool, there: bool, in_memory: bool, events: Seq<bool>, n: int) -> bool {
    forall|i: int|
        0 <= i < n ==> (fetch_script(kept, there, in_memory, i) == FetchAction::FindEntry ==> #[trigger] events[i] == there) && (
        events[i] || fetch_script(kept, there, in_memory, i) == FetchAction::FindEntry || fetch_script(kept, there, in_memory, i)
            == FetchAction::Stop)
}

/// A fetch goes by the script for as long as nothing fails.
pub proof fn law_fetch_goes_by_the_script(kept: bool, there: bool, in_memory: bool, events: Seq<bool>)
    requires
        fetch_goes_well(kept, there, in_memory, events, events.len() as int),
    ensures
        ({
            let s = fetch_all(fetch_start(kept), events, in_memory);
            &&& s.next == fetch_script(kept, there, in_memory, events.len() as int)
            &&& !s.failed
            &&& s.kept == kept
        }),
    decreases events.len(),
{
    if events.len() > 0 {
        let head = events.drop_last();
        assert forall|i: int| 0 <= i < head.len() implies (fetch_script(kept, there, in_memory, i) == FetchAction::FindEntry
            ==> #[trigger] head[i] == there) && (head[i] || fetch_script(kept, there, in_memory, i) == FetchAction::FindEntry
            || fetch_script(kept, there, in_memory, i) == FetchAction::Stop) by {
            assert(events[i] == head[i]);
        }
        law_fetch_goes_by_the_script(kept, there, in_memory, head);
        let n = events.len() - 1;
        assert(fetch_script(kept, there, in_memory, n) == FetchAction::FindEntry ==> events[n] == there);
    }
}

/// The first action that fails ends the fetch for good; not to find the entry
/// file is no failure.
pub proof fn law_failed_fetch_stops(kept: bool, there: bool, in_memory: bool, events: Seq<bool>, n: int)
    requires
        0 <= n < events.len(),
        fetch_goes_well(kept, there, in_memory, events, n),
        !events[n],
        fetch_script(kept, there, in_memory, n) != FetchAction::FindEntry,
        fetch_script(kept, there, in_memory, n) != FetchAction::Stop,
    ensures
        ({
            let s = fetch_all(fetch_start(kept), events, in_memory);
            s.failed && s.next == FetchAction::Stop
        }),
    decreases events.len(),
{
    let head = events.drop_last();
    assert forall|i: int| 0 <= i < n implies (fetch_script(kept, there, in_memory, i) == FetchAction::FindEntry ==> #[trigger] head[i]
        == there) && (head[i] || fetch_script(kept, there, in_memory, i) == FetchAction::FindEntry || fetch_script(
        kept,
        there,
        in_memory,
        i,
    ) == FetchAction::Stop) by {
        assert(events[i] == head[i]);
    }
    if events.len() == n + 1 {
        law_fetch_goes_by_the_script(kept, there, in_memory, head);
    } else {
        assert(head[n] == events[n]);
        law_failed_fetch_stops(kept, there, in_memory, head, n);
    }
}

// ---- two fetches --------------------------------------------------------------------------

/// What the fetches of one version have in common: its directory, the file
/// that each path leads to, and what each text of a manifest says.
pub struct FetchScene {
    pub dir: Seq<char>,
    pub place: spec_fn(Seq<char>) -> int,
    pub says: spec_fn(Seq<char>) -> Option<AppManifest>,
}

impl FetchScene {
    /// The file that keeps the manifest.
    pub open spec fn manifest_file(self) -> int {
        (self.place)(joined(self.dir, "manifest.toml"@))
    }

    /// The file that keeps the entry file of a manifest.
    pub open spec fn entry_file(self, manifest: AppManifest) -> int {
        (self.place)(joined(self.dir, manifest.runtime.entry@))
    }
}

/// What comes from outside in one action of a fetch: what the store would
/// answer, and whether a file can be written.
pub struct FetchAnswer {
    pub manifest: Option<Seq<char>>,
    pub entry: Option<Seq<u8>>,
    pub writable: bool,
}

/// A fetch with what it holds, the files on disk, and how often the store was
/// asked.
pub struct FetchTale {
    pub run: FetchRun,
    pub disk: Map<int, Seq<u8>>,
    pub text: Seq<char>,
    pub manifest: Option<AppManifest>,
    pub bytes: Seq<u8>,
    pub wasm: Seq<u8>,
    pub asked: nat,
}

/// A fetch that begins with those files on disk.
pub open spec fn tale_start(w: FetchScene, disk: Map<int, Seq<u8>>) -> FetchTale {
    FetchTale {
        run: fetch_start(disk.dom().contains(w.manifest_file())),
        disk,
        text: Seq::empty(),
        manifest: None,
        bytes: Seq::empty(),
        wasm: Seq::empty(),
        asked: 0,
    }
}

/// Does the next action succeed? A file is read where it is there, and a
/// manifest is read as text.
pub open spec fn tale_ok(w: FetchScene, s: FetchTale, a: FetchAnswer) -> bool {
    match s.run.next {
        FetchAction::LoadManifest => s.disk.dom().contains(w.manifest_file()) && valid_utf8(s.disk[w.manifest_file()]),
        FetchAction::GetManifest => a.manifest is Some,
        FetchAction::ParseManifest => (w.says)(s.text) is Some,
        FetchAction::StoreManifest => a.writable,
        FetchAction::FindEntry => s.disk.dom().contains(w.entry_file(s.manifest->Some_0)),
        FetchAction::GetEntry => a.entry is Some,
        FetchAction::StoreEntry => a.writable,
        FetchAction::LoadEntry => s.disk.dom().contains(w.entry_file(s.manifest->Some_0)),
        FetchAction::Stop => true,
    }
}

/// The fetch after its next action.
pub open spec fn tale_after(w: FetchScene, s: FetchTale, a: FetchAnswer) -> FetchTale {
    let ok = tale_ok(w, s, a);
    let n = FetchTale { run: fetch_after(s.run, ok, s.manifest is Some && needs_memory(s.manifest->Some_0)), ..s };
    match s.run.next {
        FetchAction::LoadManifest => FetchTale { text: decode_utf8(s.disk[w.manifest_file()]), ..n },
        FetchAction::GetManifest => FetchTale { text: a.manifest->Some_0, asked: s.asked + 1, ..n },
        FetchAction::ParseManifest => FetchTale { manifest: (w.says)(s.text), ..n },
        FetchAction::StoreManifest => if ok {
            FetchTale { disk: s.disk.insert(w.manifest_file(), encode_utf8(s.text)), ..n }
        } else {
            n
        },
        FetchAction::FindEntry => n,
        FetchAction::GetEntry => FetchTale { bytes: a.entry->Some_0, asked: s.asked + 1, ..n },
        FetchAction::StoreEntry => if ok {
            FetchTale { disk: s.disk.insert(w.entry_file(s.manifest->Some_0), s.bytes), ..n }
        } else {
            n
        },
        FetchAction::LoadEntry => FetchTale { wasm: s.disk[w.entry_file(s.manifest->Some_0)], ..n },
        FetchAction::Stop => n,
    }
}

/// The fetch after a number of actions.
pub open spec fn tale_all(w: FetchScene, s: FetchTale, answers: Seq<FetchAnswer>) -> FetchTale
    decreases answers.len(),
{
    if answers.len() == 0 {
        s
    } else {
        tale_after(w, tale_all(w, s, answers.drop_last()), answers.last())
    }
}

/// Does the disk keep the manifest `text`?
pub open spec fn keeps(w: FetchScene, disk: Map<int, Seq<u8>>, text: Seq<char>) -> bool {
    &&& disk.dom().contains(w.manifest_file())
    &&& valid_utf8(disk[w.manifest_file()])
    &&& decode_utf8(disk[w.manifest_file()]) == text
}

/// What holds of every state of a fetch.
pub open spec fn tale_inv(w: FetchScene, s: FetchTale) -> bool {
    let known = s.manifest is Some && s.manifest == (w.says)(s.text);
    let there = s.disk.dom().contains(w.entry_file(s.manifest->Some_0));
    match s.run.next {
        FetchAction::LoadManifest => s.run.kept && s.wasm.len() == 0,
        FetchAction::GetManifest => !s.run.kept && s.wasm.len() == 0,
        FetchAction::ParseManifest => s.wasm.len() == 0 && (s.run.kept ==> keeps(w, s.disk, s.text)),
        FetchAction::StoreManifest => s.wasm.len() == 0 && known,
        FetchAction::FindEntry => s.wasm.len() == 0 && known && keeps(w, s.disk, s.text),
        FetchAction::GetEntry => s.wasm.len() == 0 && known && keeps(w, s.disk, s.text) && !there,
        FetchAction::StoreEntry => s.wasm.len() == 0 && known && keeps(w, s.disk, s.text) && !there,
        FetchAction::LoadEntry => known && keeps(w, s.disk, s.text) && there && needs_memory(s.manifest->Some_0),
        FetchAction::Stop => !s.run.failed ==> known && keeps(w, s.disk, s.text) && there && s.wasm == if needs_memory(
            s.manifest->Some_0,
        ) {
            s.disk[w.entry_file(s.manifest->Some_0)]
        } else {
            Seq::empty()
        },
    }
}

/// Every fetch keeps it.
proof fn tale_keeps_inv(w: FetchScene, disk: Map<int, Seq<u8>>, answers: Seq<FetchAnswer>)
    ensures
        tale_inv(w, tale_all(w, tale_start(w, disk), answers)),
    decreases answers.len(),
{
    if answers.len() > 0 {
        tale_keeps_inv(w, disk, answers.drop_last());
        let s = tale_all(w, tale_start(w, disk), answers.drop_last());
        let n = tale_after(w, s, answers.last());
        if s.run.next == FetchAction::StoreManifest {
            encode_utf8_valid_utf8(s.text);
            encode_utf8_decode_utf8(s.text);
        }
        if n.run.next == FetchAction::Stop && n.wasm.len() == 0 {
            assert(n.wasm =~= Seq::empty());
        }
    }
}

/// How many actions a fetch from the disk alone has left at most.
pub open spec fn kept_left(a: FetchAction) -> int {
    match a {
        FetchAction::LoadManifest => 4,
        FetchAction::ParseManifest => 3,
        FetchAction::FindEntry => 2,
        FetchAction::LoadEntry => 1,
        _ => 0,
    }
}

/// What holds of every state of a fetch whose files are all there.
pub open spec fn free_inv(w: FetchScene, disk: Map<int, Seq<u8>>, manifest: AppManifest, s: FetchTale) -> bool {
    &&& s.asked == 0
    &&& s.disk == disk
    &&& !s.run.failed
    &&& s.run.kept
    &&& s.run.next == FetchAction::LoadManifest || s.run.next == FetchAction::ParseManifest || s.run.next == FetchAction::FindEntry
        || s.run.next == FetchAction::LoadEntry || s.run.next == FetchAction::Stop
    &&& s.run.next != FetchAction::LoadManifest ==> (w.says)(s.text) == Some(manifest)
    &&& s.run.next != FetchAction::LoadManifest && s.run.next != FetchAction::ParseManifest ==> s.manifest == Some(manifest)
}

/// A fetch whose files are all there asks the store for nothing.
proof fn kept_fetch_is_free(w: FetchScene, disk: Map<int, Seq<u8>>, text: Seq<char>, manifest: AppManifest, answers: Seq<FetchAnswer>)
    requires
        keeps(w, disk, text),
        (w.says)(text) == Some(manifest),
        disk.dom().contains(w.entry_file(manifest)),
    ensures
        ({
            let s = tale_all(w, tale_start(w, disk), answers);
            &&& free_inv(w, disk, manifest, s)
            &&& kept_left(s.run.next) == 0 || kept_left(s.run.next) <= 4 - answers.len()
        }),
    decreases answers.len(),
{
    if answers.len() > 0 {
        kept_fetch_is_free(w, disk, text, manifest, answers.drop_last());
    }
}

/// A fetch that succeeded has the manifest that its text says; its entry file
/// is kept, and what is in memory is that file where the runtime needs it, and
/// nothing else. A second fetch of the same version, with the files as the
/// first one left them, asks the store for nothing whatever it would answer,
/// ends after four actions at most, leaves the files as they are, and gives the
/// same app.
pub proof fn law_second_fetch_is_free(
    w: FetchScene,
    disk: Map<int, Seq<u8>>,
    first: Seq<FetchAnswer>,
    second: Seq<FetchAnswer>,
)
    requires
        ({
            let one = tale_all(w, tale_start(w, disk), first);
            one.run.next == FetchAction::Stop && !one.run.failed
        }),
    ensures
        ({
            let one = tale_all(w, tale_start(w, disk), first);
            let two = tale_all(w, tale_start(w, one.disk), second);
            &&& one.manifest is Some && one.manifest == (w.says)(one.text)
            &&& one.disk.dom().contains(w.entry_file(one.manifest->Some_0))
            &&& one.wasm == if needs_memory(one.manifest->Some_0) {
                one.disk[w.entry_file(one.manifest->Some_0)]
            } else {
                Seq::empty()
            }
            &&& two.asked == 0
            &&& two.disk == one.disk
            &&& !two.run.failed
            &&& second.len() >= 4 ==> two.run.next == FetchAction::Stop
            &&& two.run.next == FetchAction::Stop ==> two.manifest == one.manifest && two.wasm == one.wasm
        }),
{
    tale_keeps_inv(w, disk, first);
    let one = tale_all(w, tale_start(w, disk), first);
    kept_fetch_is_free(w, one.disk, one.text, one.manifest->Some_0, second);
    tale_keeps_inv(w, one.disk, second);
}

/// Two versions of an app are kept apart, and fetched from different places.
pub proof fn law_versions_are_kept_apart(data_dir: Seq<char>, base_url: Seq<char>, uuid: Seq<char>, a: nat, b: nat)
    requires
        a != b,
    ensures
        version_dir(data_dir, uuid, a) != version_dir(data_dir, uuid, b),
        object_at(base_url, uuid, a, "manifest.toml"@) != object_at(base_url, uuid, b, "manifest.toml"@),
{
    reveal_strlit("v");
    reveal_strlit("/");
    let dir = joined(joined(data_dir, "apps"@), uuid);
    let x = "v"@ + decimal(a);
    let y = "v"@ + decimal(b);
    assert(x[0] == 'v' && y[0] == 'v');
    let front = if dir.len() == 0 || dir.last() == '/' {
        dir
    } else {
        dir.push('/')
    };
    if version_dir(data_dir, uuid, a) == version_dir(data_dir, uuid, b) {
        assert(version_dir(data_dir, uuid, a).skip(front.len() as int + 1) =~= decimal(a));
        assert(version_dir(data_dir, uuid, b).skip(front.len() as int + 1) =~= decimal(b));
        decimal_injective(a, b);
    }
    let head = base_url + "/apps/"@ + uuid + "/v"@;
    let tail = "/"@ + "manifest.toml"@;
    let p = object_at(base_url, uuid, a, "manifest.toml"@);
    let q = object_at(base_url, uuid, b, "manifest.toml"@);
    if p == q {
        assert(p.subrange(head.len() as int, p.len() - tail.len()) =~= decimal(a));
        assert(q.subrange(head.len() as int, q.len() - tail.len()) =~= decimal(b));
        decimal_injective(a, b);
    }
}

} // verus!
