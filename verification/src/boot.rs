//! Starting up, and getting out of a start that keeps failing.
use vstd::prelude::*;
use crate::host::{Endpoint, IpAddress, LOOPBACK_V4};
use crate::path::{join, joined};
use crate::text::{concat2, contains_text, has_text, occurs_at, opt_str, opt_text, text_eq, text_len, texts, texts_push};

verus! {

// ---- which invocations count ---------------------------------------------------------------

/// Does the list hold that text?
fn holds(args: &[String], text: &str) -> (r: bool)
    ensures
        r == texts(args@).contains(text@),
{
    let mut i: usize = 0;
    while i < args.len()
        invariant
            i <= args@.len(),
            forall|j: int| 0 <= j < i ==> #[trigger] texts(args@)[j] != text@,
        decreases args@.len() - i,
    {
        assert(texts(args@)[i as int] == args@[i as int]@);
        if text_eq(&args[i], text) {
            return true;
        }
        i += 1;
    }
    assert(texts(args@).len() == args@.len());
    false
}

/// Does an invocation start the daemon? A candidate that is only checked does
/// not, nor do the commands that run to their end.
pub open spec fn starts_daemon(args: Seq<Seq<char>>) -> bool {
    !args.contains("--check"@) && !args.contains("self-update"@) && !args.contains("revert-to-previous"@)
}

/// Does an invocation start the daemon, so that it counts as a boot?
pub fn is_boot_invocation(args: &[String]) -> (r: bool)
    ensures
        r == starts_daemon(texts(args@)),
{
    !holds(args, "--check") && !holds(args, "self-update") && !holds(args, "revert-to-previous")
}

/// Where boots are noted: the configured directory, or the usual one.
pub fn boot_health_data_dir(configured: Option<&str>) -> (r: String)
    ensures
        r@ == match configured {
            Some(d) => d@,
            None => "/var/lib/tabbify"@,
        },
{
    match configured {
        Some(d) => d.to_owned(),
        None => "/var/lib/tabbify".to_owned(),
    }
}

// ---- checking a candidate ---------------------------------------------------------------------

/// The route that the health of a candidate is asked at.
pub const HEALTH_PATH: &'static str = "/health";

/// The route that shows that a candidate is alive; another than the first.
pub const LIVENESS_PATH: &'static str = "/v1/about";

/// Must a candidate be refused because it has no identity of its own?
pub fn candidate_identity_required(check_mode: bool, has_candidate_identity: bool) -> (r: bool)
    ensures
        r == (check_mode && !has_candidate_identity),
{
    check_mode && !has_candidate_identity
}

/// Where a candidate listens: on the loopback address, at a port that the
/// system picks, so that it never contends for where the daemon listens.
pub fn candidate_endpoint() -> (r: Endpoint)
    ensures
        r == (Endpoint { ip: IpAddress::V4(LOOPBACK_V4), port: 0 }),
{
    Endpoint { ip: IpAddress::V4(LOOPBACK_V4), port: 0 }
}

/// The directory for the runners of a candidate, apart from the daemon's own.
pub fn candidate_runner_dir(data_dir: &str) -> (r: String)
    ensures
        r@ == joined(data_dir@, "candidate-runners"@),
{
    join(data_dir, "candidate-runners")
}

/// What was seen of a candidate.
#[derive(Debug, Clone, Copy, PartialEq, Eq, Structural)]
pub struct GateInputs {
    /// It came up far enough to bind its listener.
    pub launched: bool,
    /// Its health route answered.
    pub health_200: bool,
    /// Its other route answered.
    pub pong: bool,
    /// How long that took, in seconds.
    pub elapsed_secs: u64,
}

/// What a candidate came to.
#[derive(Debug)]
pub enum ProbeOutcome {
    /// It may take over.
    Pass,
    /// It may not; the text says why.
    Fail(String),
}

/// What stops a candidate before it is brought up: a missing identity of its
/// own, or a directory that could not be made.
pub open spec fn refusal(check_mode: bool, has_candidate_identity: bool, dir_error: Option<Seq<char>>) -> Option<Seq<char>> {
    if check_mode && !has_candidate_identity {
        Some("candidate (--check) requires --candidate-identity-path (transient identity)"@)
    } else {
        match dir_error {
            Some(e) => Some("candidate runner dir: "@ + e),
            None => None,
        }
    }
}

/// What stops a candidate before it is brought up. Without an identity of its
/// own it is refused whatever became of the directory.
pub fn check_refusal(check_mode: bool, has_candidate_identity: bool, dir_error: Option<&str>) -> (r: Option<String>)
    ensures
        opt_text(r) == refusal(check_mode, has_candidate_identity, opt_str(dir_error)),
{
    if candidate_identity_required(check_mode, has_candidate_identity) {
        return Some("candidate (--check) requires --candidate-identity-path (transient identity)".to_owned());
    }
    match dir_error {
        Some(e) => Some(concat2("candidate runner dir: ", e)),
        None => None,
    }
}

/// What was seen of a candidate: `bound` says whether its listener was bound,
/// and `answers` whether its two routes answered, if they could be asked in
/// time. Nothing counts of a candidate that was not bound.
pub open spec fn seen(bound: bool, answers: Option<(bool, bool)>, elapsed_secs: u64) -> GateInputs {
    GateInputs {
        launched: bound,
        health_200: bound && answers is Some && answers->Some_0.0,
        pong: bound && answers is Some && answers->Some_0.1,
        elapsed_secs,
    }
}

/// What was seen of a candidate.
fn gate_inputs(bound: bool, answers: Option<(bool, bool)>, elapsed_secs: u64) -> (r: GateInputs)
    ensures
        r == seen(bound, answers, elapsed_secs),
{
    match answers {
        Some((health, pong)) => GateInputs { launched: bound, health_200: bound && health, pong: bound && pong, elapsed_secs },
        None => GateInputs { launched: bound, health_200: false, pong: false, elapsed_secs },
    }
}

/// Why a candidate may not take over, if it may not: all three signs must be
/// seen, and in time.
pub open spec fn gate_fault(inputs: GateInputs, timeout_secs: u64) -> Option<Seq<char>> {
    if !inputs.launched {
        Some("candidate did not launch"@)
    } else if !inputs.health_200 {
        Some("candidate health check failed"@)
    } else if !inputs.pong {
        Some("candidate liveness check failed"@)
    } else if inputs.elapsed_secs > timeout_secs {
        Some("candidate gate timed out"@)
    } else {
        None
    }
}

impl ProbeOutcome {
    /// Why the candidate may not take over, if it may not.
    pub open spec fn fault(self) -> Option<Seq<char>> {
        match self {
            ProbeOutcome::Pass => None,
            ProbeOutcome::Fail(why) => Some(why@),
        }
    }
}

/// Why a checked candidate may not take over, if it may not.
pub open spec fn check_fault(
    check_mode: bool,
    has_candidate_identity: bool,
    dir_error: Option<Seq<char>>,
    bound: bool,
    answers: Option<(bool, bool)>,
    elapsed_secs: u64,
    timeout_secs: u64,
) -> Option<Seq<char>> {
    match refusal(check_mode, has_candidate_identity, dir_error) {
        Some(why) => Some(why),
        None => gate_fault(seen(bound, answers, elapsed_secs), timeout_secs),
    }
}

/// What a check is for: a candidate takes over exactly if it has an identity
/// of its own where it is checked, its directory could be made, its listener
/// was bound, both of its routes answered, and all that in time. Else it fails
/// for the first of these that is missing.
pub proof fn law_candidate_takes_over(
    check_mode: bool,
    has_candidate_identity: bool,
    dir_error: Option<Seq<char>>,
    bound: bool,
    answers: Option<(bool, bool)>,
    elapsed_secs: u64,
    timeout_secs: u64,
)
    ensures
        ({
            let fault = check_fault(check_mode, has_candidate_identity, dir_error, bound, answers, elapsed_secs, timeout_secs);
            let known = check_mode ==> has_candidate_identity;
            let healthy = answers == Some((true, true)) || answers == Some((true, false));
            &&& fault is None <==> known && dir_error is None && bound && answers == Some((true, true)) && elapsed_secs <= timeout_secs
            &&& !known ==> fault == Some("candidate (--check) requires --candidate-identity-path (transient identity)"@)
            &&& known && dir_error is Some ==> fault == Some("candidate runner dir: "@ + dir_error->Some_0)
            &&& known && dir_error is None && !bound ==> fault == Some("candidate did not launch"@)
            &&& known && dir_error is None && bound && !healthy ==> fault == Some("candidate health check failed"@)
            &&& known && dir_error is None && bound && answers == Some((true, false)) ==> fault == Some(
                "candidate liveness check failed"@,
            )
            &&& known && dir_error is None && bound && answers == Some((true, true)) && elapsed_secs > timeout_secs ==> fault == Some(
                "candidate gate timed out"@,
            )
        }),
{
}

/// Nothing that goes worse helps a candidate: one that passes would have
/// passed with less time taken or more allowed, and one that fails would have
/// failed with any sign of life taken away.
pub proof fn law_signs_of_life_only_help(
    check_mode: bool,
    has_candidate_identity: bool,
    dir_error: Option<Seq<char>>,
    bound: bool,
    health: bool,
    pong: bool,
    elapsed_secs: u64,
    timeout_secs: u64,
    less_bound: bool,
    less_health: bool,
    less_pong: bool,
    more_secs: u64,
)
    requires
        less_bound ==> bound,
        less_health ==> health,
        less_pong ==> pong,
        more_secs >= elapsed_secs,
        check_fault(
            check_mode,
            has_candidate_identity,
            dir_error,
            less_bound,
            Some((less_health, less_pong)),
            more_secs,
            timeout_secs,
        ) is None,
    ensures
        check_fault(check_mode, has_candidate_identity, dir_error, bound, Some((health, pong)), elapsed_secs, timeout_secs) is None,
        less_bound && less_health && less_pong,
{
}

/// Checks a candidate: what stops it before it is brought up is what it fails
/// for; else it is judged by what was seen of it.
pub fn run_check_mode(
    check_mode: bool,
    has_candidate_identity: bool,
    dir_error: Option<&str>,
    bound: bool,
    answers: Option<(bool, bool)>,
    elapsed_secs: u64,
    timeout_secs: u64,
) -> (r: ProbeOutcome)
    ensures
        r.fault() == match refusal(check_mode, has_candidate_identity, opt_str(dir_error)) {
            Some(why) => Some(why),
            None => gate_fault(seen(bound, answers, elapsed_secs), timeout_secs),
        },
        r.fault() == check_fault(check_mode, has_candidate_identity, opt_str(dir_error), bound, answers, elapsed_secs, timeout_secs),
        r is Pass <==> (check_mode ==> has_candidate_identity) && dir_error is None && bound && answers == Some((true, true))
            && elapsed_secs <= timeout_secs,
{
    match check_refusal(check_mode, has_candidate_identity, dir_error) {
        Some(why) => ProbeOutcome::Fail(why),
        None => evaluate_gate(gate_inputs(bound, answers, elapsed_secs), timeout_secs),
    }
}

/// Judges a candidate by what was seen of it.
pub fn evaluate_gate(inputs: GateInputs, timeout_secs: u64) -> (r: ProbeOutcome)
    ensures
        r.fault() == gate_fault(inputs, timeout_secs),
{
    if !inputs.launched {
        return ProbeOutcome::Fail("candidate did not launch".to_owned());
    }
    if !inputs.health_200 {
        return ProbeOutcome::Fail("candidate health check failed".to_owned());
    }
    if !inputs.pong {
        return ProbeOutcome::Fail("candidate liveness check failed".to_owned());
    }
    if inputs.elapsed_secs > timeout_secs {
        return ProbeOutcome::Fail("candidate gate timed out".to_owned());
    }
    ProbeOutcome::Pass
}

/// The exit code of a check.
pub fn check_exit_code(outcome: &ProbeOutcome) -> (r: i32)
    ensures
        r == if outcome is Pass {
            0i32
        } else {
            1i32
        },
{
    match outcome {
        ProbeOutcome::Pass => 0,
        ProbeOutcome::Fail(_) => 1,
    }
}

// ---- updating ---------------------------------------------------------------------------------

/// What an update came to.
#[derive(Debug, Clone, Copy, PartialEq, Eq, Structural)]
pub enum SelfUpdateEnd {
    /// The version runs already.
    AlreadyCurrent,
    /// The version was swapped in.
    Swapped,
    /// Nothing was changed.
    Failed,
}

/// The exit code of an update.
pub fn run_self_update(end: SelfUpdateEnd) -> (r: i32)
    ensures
        r == if end == SelfUpdateEnd::Failed {
            1i32
        } else {
            0i32
        },
{
    match end {
        SelfUpdateEnd::AlreadyCurrent => 0,
        SelfUpdateEnd::Swapped => 0,
        SelfUpdateEnd::Failed => 1,
    }
}

/// What the watchdog of a start looks after.
#[derive(Debug)]
pub struct WatchdogPlan {
    /// The version that is not confirmed yet.
    pub pending: String,
    /// Is the version to fall back to taken to have had a tunnel?
    pub prev_good_had_tunnel: bool,
}

/// Is there a version to confirm? Then whether the version to fall back to
/// had a tunnel is told by whether this start has one.
pub fn spawn_post_restart_watchdog(pending: Option<&str>, has_data_plane: bool) -> (r: Option<WatchdogPlan>)
    ensures
        r is Some <==> pending is Some,
        r matches Some(p) ==> p.pending@ == pending->Some_0@ && p.prev_good_had_tunnel == has_data_plane,
{
    match pending {
        Some(v) => Some(WatchdogPlan { pending: v.to_owned(), prev_good_had_tunnel: has_data_plane }),
        None => None,
    }
}

// ---- going back to the previous version ----------------------------------------------------------

/// Exit code: it was gone back, or the host reboots.
pub const PERFORMED: i32 = 0;

/// Exit code: there is no version to go back to.
pub const NO_PREVIOUS: i32 = 2;

/// Exit code: going back failed.
pub const FAILED: i32 = 3;

/// Exit code: a reboot was refused.
pub const REBOOT_PARKED: i32 = 4;

/// What going back came to.
#[derive(Debug, PartialEq, Eq)]
pub enum RevertFlowOutcome {
    /// It was gone back to that version.
    Performed(String),
    /// There is no version to go back to.
    NoPrevious,
    /// The host reboots.
    Rebooted,
    /// A reboot was refused.
    RebootParked,
    /// Going back failed; the text says why.
    Failed(String),
}

/// The exit code of an outcome.
pub open spec fn revert_code(o: RevertFlowOutcome) -> i32 {
    match o {
        RevertFlowOutcome::Performed(_) => PERFORMED,
        RevertFlowOutcome::Rebooted => PERFORMED,
        RevertFlowOutcome::NoPrevious => NO_PREVIOUS,
        RevertFlowOutcome::RebootParked => REBOOT_PARKED,
        RevertFlowOutcome::Failed(_) => FAILED,
    }
}

impl RevertFlowOutcome {
    /// The exit code of the outcome.
    pub fn exit_code(&self) -> (r: i32)
        ensures
            r == revert_code(*self),
    {
        match self {
            RevertFlowOutcome::Performed(_) => PERFORMED,
            RevertFlowOutcome::Rebooted => PERFORMED,
            RevertFlowOutcome::NoPrevious => NO_PREVIOUS,
            RevertFlowOutcome::RebootParked => REBOOT_PARKED,
            RevertFlowOutcome::Failed(_) => FAILED,
        }
    }
}

/// The ledger of installed versions.
#[derive(Debug)]
pub struct VersionFile {
    /// The version that is installed.
    pub current: String,
    /// The versions before it.
    pub previous: Vec<String>,
    /// A version that is not confirmed yet.
    pub pending_confirm: Option<String>,
    /// Versions that must not be installed again.
    pub quarantine: Vec<String>,
}

/// A list with that text in it: at its end, unless it holds it already.
pub open spec fn with_text(list: Seq<Seq<char>>, text: Seq<char>) -> Seq<Seq<char>> {
    if list.contains(text) {
        list
    } else {
        list.push(text)
    }
}

impl VersionFile {
    /// Puts a version into quarantine, once.
    pub fn quarantine_version(&mut self, bad: &str)
        ensures
            texts(final(self).quarantine@) == with_text(texts(old(self).quarantine@), bad@),
            final(self).current == old(self).current,
            final(self).previous == old(self).previous,
            final(self).pending_confirm == old(self).pending_confirm,
    {
        if !holds(&self.quarantine, bad) {
            let b: String = bad.to_owned();
            proof {
                texts_push(self.quarantine@, b);
            }
            self.quarantine.push(b);
        }
    }
}

/// The starts that failed in a row.
#[derive(Debug)]
pub struct BootAttempts {
    /// How many there were.
    pub count: u32,
    /// The version that was gone back to in this row, if any.
    pub reverted_to: Option<String>,
}

impl BootAttempts {
    /// No start failed.
    pub fn new() -> (r: Self)
        ensures
            r.count == 0,
            r.reverted_to is None,
    {
        BootAttempts { count: 0, reverted_to: None }
    }

    /// Notes that it was gone back to that version, which gets its own count.
    pub fn mark_reverted(&mut self, version: &str)
        ensures
            final(self).count == 0,
            opt_text(final(self).reverted_to) == Some(version@),
    {
        self.count = 0;
        self.reverted_to = Some(version.to_owned());
    }
}

/// What to do next to go back.
#[derive(Debug)]
pub enum RevertStep {
    /// Go back.
    Revert,
    /// Ask for a reboot.
    Reboot,
    /// Nothing: this is what came of it.
    Finish(RevertFlowOutcome),
}

/// What to do first. A version that was gone back to and fails in its turn is
/// no reason to go back further: where a reboot is allowed, it is asked for.
pub open spec fn revert_first(reboot_on_exhausted: bool, attempts: BootAttempts) -> RevertStep {
    if reboot_on_exhausted && attempts.reverted_to is Some {
        RevertStep::Reboot
    } else {
        RevertStep::Revert
    }
}

/// What to do first to go back.
pub fn revert_to_previous_flow(reboot_on_exhausted: bool, attempts: &BootAttempts) -> (r: RevertStep)
    ensures
        r == revert_first(reboot_on_exhausted, *attempts),
{
    match &attempts.reverted_to {
        Some(_) => if reboot_on_exhausted {
            RevertStep::Reboot
        } else {
            RevertStep::Revert
        },
        None => RevertStep::Revert,
    }
}

/// Does the reason why it could not be gone back say that there is no version
/// to go back to?
pub open spec fn says_no_previous(why: Seq<char>) -> bool {
    has_text(why, "no previous-good"@) || has_text(why, "completely-staged"@)
}

/// The version that is left: the installed one, unless the ledger does not say.
pub open spec fn left_version(current: Option<Seq<char>>) -> Option<Seq<char>> {
    match current {
        Some(c) => if c.len() > 0 {
            Some(c)
        } else {
            None
        },
        None => None,
    }
}

/// Is `r` what to do after it was gone back to a version, or could not be for
/// some reason?
pub open spec fn revert_goes_on(reverted: Result<Seq<char>, Seq<char>>, reboot_on_exhausted: bool, r: RevertStep) -> bool {
    match reverted {
        Ok(v) => r matches RevertStep::Finish(RevertFlowOutcome::Performed(x)) && x@ == v,
        Err(why) => if !says_no_previous(why) {
            r matches RevertStep::Finish(RevertFlowOutcome::Failed(x)) && x@ == why
        } else if reboot_on_exhausted {
            r is Reboot
        } else {
            r matches RevertStep::Finish(RevertFlowOutcome::NoPrevious)
        },
    }
}

/// What was tried, with its texts as sequences of characters.
pub open spec fn revert_view(reverted: Result<&str, &str>) -> Result<Seq<char>, Seq<char>> {
    match reverted {
        Ok(v) => Ok(v@),
        Err(e) => Err(e@),
    }
}

/// What to do after it was gone back, or could not be. `current` is the version
/// that was installed before, `ledger` the ledger as it is now, if it can be
/// read. The version that was left goes into quarantine, and the failed starts
/// are counted anew.
pub fn after_revert(
    reverted: Result<&str, &str>,
    current: Option<&str>,
    reboot_on_exhausted: bool,
    ledger: &mut Option<VersionFile>,
    attempts: &mut BootAttempts,
) -> (r: RevertStep)
    ensures
        revert_goes_on(revert_view(reverted), reboot_on_exhausted, r),
        match (reverted, left_version(opt_str(current))) {
            (Ok(v), Some(bad)) => {
                &&& final(attempts).count == 0
                &&& opt_text(final(attempts).reverted_to) == Some(v@)
                &&& (*old(ledger) is Some <==> *final(ledger) is Some)
                &&& *old(ledger) matches Some(l) ==> {
                    &&& texts(final(ledger)->Some_0.quarantine@) == with_text(texts(l.quarantine@), bad)
                    &&& final(ledger)->Some_0.current == l.current
                    &&& final(ledger)->Some_0.previous == l.previous
                    &&& final(ledger)->Some_0.pending_confirm == l.pending_confirm
                }
            },
            _ => *final(ledger) == *old(ledger) && *final(attempts) == *old(attempts),
        },
{
    match reverted {
        Ok(v) => {
            match current {
                Some(bad) => {
                    if text_len(bad) > 0 {
                        match ledger {
                            Some(l) => {
                                l.quarantine_version(bad);
                            },
                            None => {},
                        }
                        attempts.mark_reverted(v);
                    }
                },
                None => {},
            }
            RevertStep::Finish(RevertFlowOutcome::Performed(v.to_owned()))
        },
        Err(why) => {
            if !(contains_text(why, "no previous-good") || contains_text(why, "completely-staged")) {
                return RevertStep::Finish(RevertFlowOutcome::Failed(why.to_owned()));
            }
            if reboot_on_exhausted {
                RevertStep::Reboot
            } else {
                RevertStep::Finish(RevertFlowOutcome::NoPrevious)
            }
        },
    }
}

/// What came of asking for a reboot.
pub fn after_reboot(granted: bool) -> (r: RevertFlowOutcome)
    ensures
        r == if granted {
            RevertFlowOutcome::Rebooted
        } else {
            RevertFlowOutcome::RebootParked
        },
{
    if granted {
        RevertFlowOutcome::Rebooted
    } else {
        RevertFlowOutcome::RebootParked
    }
}

/// A reboot is asked for only where it is allowed, and only once there is
/// nothing left to go back to, or it was gone back before in the same row of
/// failures; and then it is not gone back any further.
pub proof fn law_reboot_is_the_last_resort(
    reboot_on_exhausted: bool,
    attempts: BootAttempts,
    reverted: Result<Seq<char>, Seq<char>>,
    next: RevertStep,
)
    requires
        revert_goes_on(reverted, reboot_on_exhausted, next),
    ensures
        revert_first(reboot_on_exhausted, attempts) is Reboot <==> reboot_on_exhausted && attempts.reverted_to is Some,
        revert_first(reboot_on_exhausted, attempts) is Revert <==> !(reboot_on_exhausted && attempts.reverted_to is Some),
        next is Reboot <==> reboot_on_exhausted && (reverted matches Err(why) && says_no_previous(why)),
        !(next is Revert),
{
}

/// The exit codes tell apart what the caller must tell apart: success, no
/// version to go back to, a failure, and a reboot that was refused.
pub proof fn law_exit_codes_distinct(a: RevertFlowOutcome, b: RevertFlowOutcome)
    ensures
        revert_code(a) == revert_code(b) <==> (a is Performed || a is Rebooted) && (b is Performed || b is Rebooted) || a is NoPrevious
            && b is NoPrevious || a is RebootParked && b is RebootParked || a is Failed && b is Failed,
{
}

/// The exit codes are those that the unit which starts the daemon goes by.
pub proof fn law_exit_codes_are_the_agreed_ones(version: String, why: String)
    ensures
        revert_code(RevertFlowOutcome::Performed(version)) == 0,
        revert_code(RevertFlowOutcome::Rebooted) == 0,
        revert_code(RevertFlowOutcome::NoPrevious) == 2,
        revert_code(RevertFlowOutcome::Failed(why)) == 3,
        revert_code(RevertFlowOutcome::RebootParked) == 4,
{
}

/// Putting a version into quarantine adds it at the end if it is not there,
/// keeps all others in their order, and never adds it twice.
pub proof fn law_quarantine(list: Seq<Seq<char>>, bad: Seq<char>)
    ensures
        with_text(list, bad).contains(bad),
        with_text(list, bad).take(list.len() as int) == list,
        with_text(list, bad).len() == list.len() + if list.contains(bad) {
            0int
        } else {
            1
        },
        list.no_duplicates() ==> with_text(list, bad).no_duplicates(),
        with_text(with_text(list, bad), bad) == with_text(list, bad),
{
    let out = with_text(list, bad);
    assert(out.take(list.len() as int) =~= list);
    if !list.contains(bad) {
        assert(out[list.len() as int] == bad);
    }
}

/// A reason says that there is nothing to go back to wherever it holds the
/// words for that; a reason without them never does.
pub proof fn law_no_previous_is_told(front: Seq<char>, back: Seq<char>)
    ensures
        says_no_previous(front + "no previous-good"@ + back),
        says_no_previous(front + "completely-staged"@ + back),
        !says_no_previous(Seq::empty()),
{
    let a = "no previous-good"@;
    let b = "completely-staged"@;
    reveal_strlit("no previous-good");
    reveal_strlit("completely-staged");
    let n = front.len() as int;
    assert((front + a + back).subrange(n, n + a.len()) =~= a);
    assert((front + b + back).subrange(n, n + b.len()) =~= b);
    assert(occurs_at(front + a + back, a, n));
    assert(occurs_at(front + b + back, b, n));
}

/// Three words keep an invocation from starting the daemon, wherever they
/// stand, and nothing else does.
pub proof fn law_what_starts_the_daemon(args: Seq<Seq<char>>, i: int)
    ensures
        0 <= i < args.len() && (args[i] == "--check"@ || args[i] == "self-update"@ || args[i] == "revert-to-previous"@)
            ==> !starts_daemon(args),
        (forall|j: int| 0 <= j < args.len() ==> #[trigger] args[j] != "--check"@ && args[j] != "self-update"@ && args[j]
            != "revert-to-previous"@) ==> starts_daemon(args),
{
}

/// The version that is left is the installed one, unless it has no name.
pub proof fn law_version_that_is_left(current: Seq<char>)
    ensures
        current.len() > 0 ==> left_version(Some(current)) == Some(current),
        current.len() == 0 ==> left_version(Some(current)) is None,
        left_version(None) is None,
{
}

} // verus!
