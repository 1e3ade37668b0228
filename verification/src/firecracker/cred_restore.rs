//! Giving a workspace's broker its credentials back after a snapshot.
//!
//! A snapshot must not freeze credentials, so they are dropped from the guest
//! before one is taken. What is frozen in their place is a nonce, and whoever
//! holds its copy may hand the credentials back.
use vstd::prelude::*;
use crate::firecracker::snapshot::{CacheDir, CacheModel};
use crate::http_status::{is_status, is_success, status_line, status_text, success};
use crate::json::{json_from_str, json_insert, json_object, json_of, json_parsed, json_text, opt_json, string_member, text_member, JsonModel};
use crate::number::{decimal, push_decimal};
use crate::order::{sort_strs, text_sorted};
use crate::path::{join, joined};
use crate::polling::{duration_debug, duration_text, least};
use crate::text::{concat2, concat3, opt_str, opt_text, strs, text_eq, text_len};
use crate::words::{is_space, trim_text, trimmed, trimmed_fixed};

verus! {

/// The broker route that takes credentials back.
pub const RESTORE_CREDS_PATH: &'static str = "/v1/restore-creds";

/// The name of the cap file that holds the broker's bearer.
pub const AUTHKEYS_CAP_NAME: &'static str = "authkeys.cap";

/// How long handing credentials back may take in all, in milliseconds.
pub const REPLUMB_BUDGET: u64 = 30_000;

/// The pause between two attempts, in milliseconds.
pub const REPLUMB_POLL: u64 = 1_000;

/// How long one request may take, in milliseconds.
pub const REPLUMB_REQUEST_TIMEOUT: u64 = 5_000;

/// Path of the nonce of the snapshot in a cache directory.
pub fn restore_token_path(cache_dir: &str) -> (r: String)
    ensures
        r@ == joined(cache_dir@, ".snapshot_restore_token"@),
{
    join(cache_dir, ".snapshot_restore_token")
}

/// Notes the nonce of the snapshot that is about to be taken.
pub fn write_restore_token(cache: &mut CacheDir, token: &str)
    ensures
        final(cache)@ == (CacheModel { restore_token: Some(token@), ..old(cache)@ }),
{
    cache.restore_token = Some(token.to_owned());
}

/// The noted nonce, white space around it aside; an empty one counts as none.
pub open spec fn token_of(c: CacheModel) -> Option<Seq<char>> {
    match c.restore_token {
        Some(t) => if trimmed(t).len() == 0 {
            None
        } else {
            Some(trimmed(t))
        },
        None => None,
    }
}

/// The noted nonce; without one a guest that needs credentials must boot cold.
pub fn read_restore_token(cache: &CacheDir) -> (r: Option<String>)
    ensures
        opt_text(r) == token_of(cache@),
{
    match &cache.restore_token {
        Some(t) => {
            let s = trim_text(t);
            if text_len(&s) == 0 {
                None
            } else {
                Some(s)
            }
        },
        None => None,
    }
}

/// A nonce that is not empty and has no white space at its ends reads back as
/// it was written.
pub proof fn law_token_round_trip(c: CacheModel, token: Seq<char>)
    requires
        token.len() > 0,
        !is_space(token[0]),
        !is_space(token.last()),
    ensures
        token_of(CacheModel { restore_token: Some(token), ..c }) == Some(token),
{
    trimmed_fixed(token);
}

/// Does a VM hold credentials that a snapshot would lose? Only a workspace
/// with cap files does.
pub fn needs_cred_restore(is_workspace: bool, has_cap_files: bool) -> (r: bool)
    ensures
        r == (is_workspace && has_cap_files),
{
    is_workspace && has_cap_files
}

/// The value of the first cap file of that name.
pub open spec fn cap_value(caps: Seq<(String, String)>, name: Seq<char>) -> Option<Seq<char>>
    decreases caps.len(),
{
    if caps.len() == 0 {
        None
    } else if caps[0].0@ == name {
        Some(caps[0].1@)
    } else {
        cap_value(caps.skip(1), name)
    }
}

/// The bearer of the broker, if the cap files have one.
pub fn authkeys_cap_value(cap_files: &[(String, String)]) -> (r: Option<&str>)
    ensures
        opt_str(r) == cap_value(cap_files@, AUTHKEYS_CAP_NAME@),
{
    let mut i: usize = 0;
    assert(cap_files@.skip(0) =~= cap_files@);
    while i < cap_files.len()
        invariant
            i <= cap_files@.len(),
            cap_value(cap_files@, AUTHKEYS_CAP_NAME@) == cap_value(cap_files@.skip(i as int), AUTHKEYS_CAP_NAME@),
        decreases cap_files@.len() - i,
    {
        assert(cap_files@.skip(i as int)[0] == cap_files@[i as int]);
        if text_eq(&cap_files[i].0, AUTHKEYS_CAP_NAME) {
            return Some(&cap_files[i].1);
        }
        assert(cap_files@.skip(i as int).skip(1) =~= cap_files@.skip(i + 1));
        i += 1;
    }
    None
}

/// The nonce in the reply to a scrub: its member `restore_nonce`, if that is
/// a text and not empty.
pub open spec fn nonce_in(reply: Option<JsonModel>) -> Option<Seq<char>> {
    match text_member(reply, "restore_nonce"@) {
        Some(t) => if t.len() == 0 {
            None
        } else {
            Some(t)
        },
        None => None,
    }
}

/// The nonce in the parsed reply to a scrub.
pub fn nonce_of_reply(reply: &Option<serde_json::Value>) -> (r: Option<String>)
    ensures
        opt_text(r) == nonce_in(opt_json(*reply)),
{
    match string_member(reply, "restore_nonce") {
        Some(t) => if text_len(t) == 0 {
            None
        } else {
            Some(t.to_owned())
        },
        None => None,
    }
}

/// The nonce in the reply to a scrub; a reply without one comes from a broker
/// that cannot take credentials back.
pub fn parse_scrub_nonce(body: &str) -> (r: Option<String>)
    ensures
        opt_text(r) == nonce_in(json_parsed(body@)),
{
    let reply: Option<serde_json::Value> = match json_from_str(body) {
        Ok(v) => Some(v),
        Err(_) => None,
    };
    nonce_of_reply(&reply)
}

/// The cap files as the members of an object; of two with one name the later
/// counts.
pub open spec fn files_object(caps: Seq<(String, String)>) -> Map<Seq<char>, JsonModel>
    decreases caps.len(),
{
    if caps.len() == 0 {
        Map::empty()
    } else {
        files_object(caps.drop_last()).insert(caps.last().0@, JsonModel::Text(caps.last().1@))
    }
}

/// The body that hands credentials back: the cap files under `files`.
pub fn restore_body_json(cap_files: &[(String, String)]) -> (r: serde_json::Value)
    ensures
        json_of(r) == JsonModel::Object(map!["files"@ => JsonModel::Object(files_object(cap_files@))]),
{
    let mut files = json_object();
    let mut i: usize = 0;
    assert(cap_files@.take(0) =~= Seq::empty());
    while i < cap_files.len()
        invariant
            i <= cap_files@.len(),
            json_of(files) == JsonModel::Object(files_object(cap_files@.take(i as int))),
        decreases cap_files@.len() - i,
    {
        proof {
            assert(cap_files@.take(i + 1).drop_last() =~= cap_files@.take(i as int));
            assert(cap_files@.take(i + 1).last() == cap_files@[i as int]);
        }
        json_insert(&mut files, &cap_files[i].0, json_text(&cap_files[i].1));
        i += 1;
    }
    assert(cap_files@.take(i as int) =~= cap_files@);
    let mut body = json_object();
    json_insert(&mut body, "files", files);
    body
}

/// The names of the cap files.
pub open spec fn names_of(caps: Seq<(String, String)>) -> Seq<Seq<char>> {
    Seq::new(caps.len(), |i: int| caps[i].0@)
}

/// The names of the cap files in order; the values never leave them.
pub fn cap_file_names<'a>(cap_files: &'a [(String, String)]) -> (r: Vec<&'a str>)
    ensures
        text_sorted(strs(r@)),
        strs(r@).to_multiset() == names_of(cap_files@).to_multiset(),
{
    let mut names: Vec<&'a str> = Vec::new();
    let mut i: usize = 0;
    while i < cap_files.len()
        invariant
            i <= cap_files@.len(),
            names@.len() == i,
            forall|j: int| 0 <= j < i ==> (#[trigger] names@[j])@ == cap_files@[j].0@,
        decreases cap_files@.len() - i,
    {
        names.push(&cap_files[i].0);
        i += 1;
    }
    assert(strs(names@) =~= names_of(cap_files@));
    sort_strs(&names)
}

/// Where the broker takes credentials back.
pub fn restore_url(base: &str) -> (r: String)
    ensures
        r@ == base@ + RESTORE_CREDS_PATH@,
{
    concat2(base, RESTORE_CREDS_PATH)
}

/// How one request to the broker ended.
#[derive(Debug)]
pub enum ReplumbOutcome {
    /// The broker answered with this status.
    Status(u16),
    /// It did not answer; the text says why.
    NoAnswer(String),
}

/// What is said of a broker that cannot take credentials back.
pub open spec fn probe_refusal(status: u16) -> Seq<char> {
    "broker does not support /v1/restore-creds (HTTP "@ + status_line(status)
        + "); refusing to scrub \u{2014} a snapshot of this guest could never be re-plumbed (base image predates the restore protocol?)"@
}

/// What is said of a broker that could not be asked at `url`.
pub open spec fn probe_unreachable(url: Seq<char>, why: Seq<char>) -> Seq<char> {
    "restore-capability probe GET "@ + url + " failed (broker unreachable): "@ + why
}

/// Judges how the question to the broker at `base` ended, whether it takes
/// credentials back. Without a yes nothing may be dropped from the guest.
pub fn probe_restore_capability(base: &str, outcome: &ReplumbOutcome) -> (r: Result<(), String>)
    requires
        *outcome matches ReplumbOutcome::Status(s) ==> is_status(s),
    ensures
        match *outcome {
            ReplumbOutcome::Status(s) => if success(s) {
                r is Ok
            } else {
                r is Err && r->Err_0@ == probe_refusal(s)
            },
            ReplumbOutcome::NoAnswer(why) => r is Err && r->Err_0@ == probe_unreachable(base@ + RESTORE_CREDS_PATH@, why@),
        },
{
    let status: u16 = match outcome {
        ReplumbOutcome::Status(s) => *s,
        ReplumbOutcome::NoAnswer(why) => {
            let url = restore_url(base);
            let mut m = concat3("restore-capability probe GET ", &url, " failed (broker unreachable): ");
            m.append(why);
            return Err(m);
        },
    };
    if is_success(status) {
        return Ok(());
    }
    let mut m: String = "broker does not support /v1/restore-creds (HTTP ".to_owned();
    let st = status_text(status);
    m.append(&st);
    m.append(
        "); refusing to scrub \u{2014} a snapshot of this guest could never be re-plumbed (base image predates the restore protocol?)",
    );
    Err(m)
}

/// What to do after an attempt to hand credentials back.
#[derive(Debug)]
pub enum ReplumbStep {
    /// The broker holds the credentials again.
    Done,
    /// The guest has no credentials; the text says why.
    Fail(String),
    /// Sleep that many milliseconds, then try again.
    Retry(u64),
}

/// Statuses that waiting does not heal.
pub open spec fn is_final_status(status: u16) -> bool {
    status == 400 || status == 401 || status == 403 || status == 404 || status == 405
}

/// What is said of an answer that waiting does not heal.
pub open spec fn rejected_text(status: u16, attempt: nat) -> Seq<char> {
    "broker rejected the credential re-plumb (HTTP "@ + status_line(status) + ", attempt "@ + decimal(attempt)
        + "): nonce mismatch or protocol-less broker \u{2014} the guest is credless, fall back to cold boot"@
}

/// What is said of a broker that kept failing until the budget was spent.
pub open spec fn exhausted_text(status: u16, budget_ms: u64, attempt: nat) -> Seq<char> {
    "credential re-plumb exhausted its "@ + duration_debug(budget_ms) + " budget on HTTP "@ + status_line(status) + " (attempt "@
        + decimal(attempt) + ") \u{2014} the guest is credless"@
}

/// What is said of a broker that did not answer until the budget was spent.
pub open spec fn silent_text(why: Seq<char>, budget_ms: u64, attempt: nat) -> Seq<char> {
    "credential re-plumb exhausted its "@ + duration_debug(budget_ms) + " budget (attempt "@ + decimal(attempt)
        + "): broker never answered: "@ + why
}

/// The pause before the next attempt: the poll interval, though not past the
/// deadline.
pub open spec fn replumb_pause(now_ms: u64, deadline_ms: u64, poll_ms: u64) -> int {
    least(poll_ms as int, deadline_ms - now_ms)
}

/// What to do after an attempt to hand credentials back. A success ends it.
/// An answer that waiting does not heal fails at once. Anything else is tried
/// again while the budget lasts.
pub open spec fn replumb_result(
    outcome: ReplumbOutcome,
    now_ms: u64,
    deadline_ms: u64,
    budget_ms: u64,
    poll_ms: u64,
    attempt: nat,
    step: ReplumbStep,
) -> bool {
    match outcome {
        ReplumbOutcome::Status(s) => if success(s) {
            step is Done
        } else if is_final_status(s) {
            step is Fail && step->Fail_0@ == rejected_text(s, attempt)
        } else if now_ms >= deadline_ms {
            step is Fail && step->Fail_0@ == exhausted_text(s, budget_ms, attempt)
        } else {
            step is Retry && step->Retry_0 == replumb_pause(now_ms, deadline_ms, poll_ms)
        },
        ReplumbOutcome::NoAnswer(why) => if now_ms >= deadline_ms {
            step is Fail && step->Fail_0@ == silent_text(why@, budget_ms, attempt)
        } else {
            step is Retry && step->Retry_0 == replumb_pause(now_ms, deadline_ms, poll_ms)
        },
    }
}

/// The pause before the next attempt.
fn pause_of(now_ms: u64, deadline_ms: u64, poll_ms: u64) -> (r: u64)
    requires
        now_ms < deadline_ms,
    ensures
        r == replumb_pause(now_ms, deadline_ms, poll_ms),
{
    let remaining: u64 = deadline_ms - now_ms;
    if poll_ms <= remaining {
        poll_ms
    } else {
        remaining
    }
}

/// What to do after attempt number `attempt` to hand credentials back.
pub fn replumb_creds(outcome: &ReplumbOutcome, now_ms: u64, deadline_ms: u64, budget_ms: u64, poll_ms: u64, attempt: u32) -> (r:
    ReplumbStep)
    requires
        *outcome matches ReplumbOutcome::Status(s) ==> is_status(s),
    ensures
        replumb_result(*outcome, now_ms, deadline_ms, budget_ms, poll_ms, attempt as nat, r),
{
    match outcome {
        ReplumbOutcome::Status(s) => {
            let status: u16 = *s;
            if is_success(status) {
                return ReplumbStep::Done;
            }
            if status == 400 || status == 401 || status == 403 || status == 404 || status == 405 {
                let mut m: String = "broker rejected the credential re-plumb (HTTP ".to_owned();
                let st = status_text(status);
                m.append(&st);
                m.append(", attempt ");
                push_decimal(&mut m, attempt as u64);
                m.append(
                    "): nonce mismatch or protocol-less broker \u{2014} the guest is credless, fall back to cold boot",
                );
                return ReplumbStep::Fail(m);
            }
            if now_ms >= deadline_ms {
                let mut m: String = "credential re-plumb exhausted its ".to_owned();
                let d = duration_text(budget_ms);
                m.append(&d);
                m.append(" budget on HTTP ");
                let st = status_text(status);
                m.append(&st);
                m.append(" (attempt ");
                push_decimal(&mut m, attempt as u64);
                m.append(") \u{2014} the guest is credless");
                return ReplumbStep::Fail(m);
            }
            ReplumbStep::Retry(pause_of(now_ms, deadline_ms, poll_ms))
        },
        ReplumbOutcome::NoAnswer(why) => {
            if now_ms >= deadline_ms {
                let mut m: String = "credential re-plumb exhausted its ".to_owned();
                let d = duration_text(budget_ms);
                m.append(&d);
                m.append(" budget (attempt ");
                push_decimal(&mut m, attempt as u64);
                m.append("): broker never answered: ");
                m.append(why);
                return ReplumbStep::Fail(m);
            }
            ReplumbStep::Retry(pause_of(now_ms, deadline_ms, poll_ms))
        },
    }
}

/// Handing credentials back ends: an attempt that is tried again was made
/// before the deadline, and the pause behind it does not pass the deadline.
pub proof fn law_replumb_bounded(
    outcome: ReplumbOutcome,
    now_ms: u64,
    deadline_ms: u64,
    budget_ms: u64,
    poll_ms: u64,
    attempt: nat,
    step: ReplumbStep,
)
    requires
        replumb_result(outcome, now_ms, deadline_ms, budget_ms, poll_ms, attempt, step),
        step is Retry,
    ensures
        now_ms < deadline_ms,
        now_ms + step->Retry_0 <= deadline_ms,
        !(outcome matches ReplumbOutcome::Status(s) && (success(s) || is_final_status(s))),
{
}

/// A success ends it, and nothing else does. Before the deadline it fails only
/// on the five statuses that waiting does not heal, and anything else is tried
/// again, after the poll interval or at the deadline, whichever is sooner.
/// From the deadline on nothing is tried again.
pub proof fn law_replumb_outcomes(
    outcome: ReplumbOutcome,
    now_ms: u64,
    deadline_ms: u64,
    budget_ms: u64,
    poll_ms: u64,
    attempt: nat,
    step: ReplumbStep,
)
    requires
        replumb_result(outcome, now_ms, deadline_ms, budget_ms, poll_ms, attempt, step),
    ensures
        step is Done <==> outcome is Status && 200 <= outcome->Status_0 <= 299,
        outcome is Status && (outcome->Status_0 == 400 || outcome->Status_0 == 401 || outcome->Status_0 == 403 || outcome->Status_0
            == 404 || outcome->Status_0 == 405) ==> step is Fail,
        now_ms < deadline_ms && step is Fail ==> outcome is Status && (outcome->Status_0 == 400 || outcome->Status_0 == 401
            || outcome->Status_0 == 403 || outcome->Status_0 == 404 || outcome->Status_0 == 405),
        now_ms >= deadline_ms ==> !(step is Retry),
        step is Retry ==> step->Retry_0 <= poll_ms && (step->Retry_0 == poll_ms || now_ms + step->Retry_0 == deadline_ms),
{
}

/// The first cap file of a name is the one that counts, and without one there
/// is none.
pub proof fn law_first_cap_counts(caps: Seq<(String, String)>, name: Seq<char>, k: int)
    requires
        0 <= k <= caps.len(),
        forall|i: int| 0 <= i < k ==> (#[trigger] caps[i]).0@ != name,
    ensures
        k < caps.len() && caps[k].0@ == name ==> cap_value(caps, name) == Some(caps[k].1@),
        k == caps.len() ==> cap_value(caps, name) is None,
    decreases k,
{
    if k > 0 {
        let rest = caps.skip(1);
        assert(caps[0].0@ != name);
        assert forall|i: int| 0 <= i < k - 1 implies (#[trigger] rest[i]).0@ != name by {
            assert(rest[i] == caps[i + 1]);
        }
        if k < caps.len() {
            assert(rest[k - 1] == caps[k]);
        }
        law_first_cap_counts(rest, name, k - 1);
    }
}

/// What is handed back holds every cap file under its name: of those with one
/// name the last one, number `k`.
pub proof fn law_last_cap_is_handed_back(caps: Seq<(String, String)>, k: int)
    requires
        0 <= k < caps.len(),
        forall|j: int| k < j < caps.len() ==> (#[trigger] caps[j]).0@ != caps[k].0@,
    ensures
        files_object(caps).dom().contains(caps[k].0@),
        files_object(caps)[caps[k].0@] == JsonModel::Text(caps[k].1@),
    decreases caps.len(),
{
    let head = caps.drop_last();
    if k < caps.len() - 1 {
        assert(head[k] == caps[k]);
        assert forall|j: int| k < j < head.len() implies (#[trigger] head[j]).0@ != head[k].0@ by {
            assert(head[j] == caps[j]);
        }
        assert(caps[caps.len() - 1].0@ != caps[k].0@);
        law_last_cap_is_handed_back(head, k);
    }
}

/// What is handed back holds nothing under a name that no cap file has.
pub proof fn law_only_caps_are_handed_back(caps: Seq<(String, String)>, name: Seq<char>)
    requires
        forall|j: int| 0 <= j < caps.len() ==> (#[trigger] caps[j]).0@ != name,
    ensures
        !files_object(caps).dom().contains(name),
    decreases caps.len(),
{
    if caps.len() > 0 {
        let head = caps.drop_last();
        assert forall|j: int| 0 <= j < head.len() implies (#[trigger] head[j]).0@ != name by {
            assert(head[j] == caps[j]);
        }
        assert(caps[caps.len() - 1].0@ != name);
        law_only_caps_are_handed_back(head, name);
    }
}

/// A reply has a nonce exactly where its member of that name is a text with
/// something in it; other members do not matter.
pub proof fn law_nonce_of_a_reply(m: Map<Seq<char>, JsonModel>, nonce: Seq<char>)
    ensures
        nonce_in(Some(JsonModel::Object(m))) == Some(nonce) <==> m.dom().contains("restore_nonce"@) && m["restore_nonce"@]
            == JsonModel::Text(nonce) && nonce.len() > 0,
        nonce_in(None) is None,
{
}

/// A noted nonce is never blank, and white space around it does not count.
pub proof fn law_token_is_never_blank(c: CacheModel)
    ensures
        c.restore_token is None ==> token_of(c) is None,
        c.restore_token is Some && trimmed(c.restore_token->Some_0).len() == 0 ==> token_of(c) is None,
        c.restore_token is Some && trimmed(c.restore_token->Some_0).len() > 0 ==> token_of(c) == Some(trimmed(c.restore_token->Some_0)),
{
}

} // verus!
