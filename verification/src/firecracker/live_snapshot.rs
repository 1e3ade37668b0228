//! Taking a snapshot of a running microVM.
//!
//! A snapshot freezes all of the guest's memory. A workspace's credentials are
//! dropped from it first; if that cannot be made sure of, nothing is frozen.
//! Whatever happens, the VM is set running again.
use vstd::prelude::*;
use crate::firecracker::launch::{guest_addr, guest_broker_ctrl_addr, GUEST_BROKER_CTRL_PORT};
use crate::firecracker::snapshot::{files_present, has_files, write_env, write_ref, CacheDir, CacheModel};
use crate::firecracker::snapshot_decision::{must_scrub_before_snapshot, PRE_SNAPSHOT_SCRUB_PATH};
use crate::http_status::{is_status, is_success, status_line, status_text, success};
use crate::text::{concat2, concat3, opt_str};

verus! {

/// How long the memory of a guest may take to be written, in milliseconds.
pub const SNAPSHOT_CREATE_TIMEOUT: u64 = 180_000;

/// How long setting a VM running again is tried, in milliseconds.
pub const RESUME_ENSURE_TIMEOUT: u64 = 60_000;

/// The pause between two attempts to set a VM running, in milliseconds.
pub const RESUME_ENSURE_POLL: u64 = 2_000;

/// How long one API call may take, in milliseconds.
pub const API_TIMEOUT: u64 = 5_000;

/// What to do next for a snapshot.
#[derive(Debug, Clone, Copy, PartialEq, Eq, Structural)]
pub enum SnapAction {
    /// Ask the broker whether it takes credentials back.
    Probe,
    /// Have the broker drop its credentials.
    Scrub,
    /// Note the nonce that the broker gave.
    NoteNonce,
    /// Make the cache directory.
    MakeDir,
    /// Pause the VM.
    Pause,
    /// Write the snapshot.
    Create,
    /// Resume the VM.
    Resume,
    /// Make sure that the VM runs.
    EnsureResumed,
    /// Look for the snapshot files, and stamp them.
    Inspect,
    /// Hand the credentials back.
    Replumb,
    /// Clear the snapshot.
    Clear,
    /// Nothing: the attempt is over.
    Stop,
}

/// Why there is no snapshot.
#[derive(Debug, Clone, Copy, PartialEq, Eq, Structural)]
pub enum SnapFault {
    /// The broker cannot take credentials back.
    Probe,
    /// The broker did not drop its credentials, or gave no nonce.
    Scrub,
    /// The nonce could not be noted.
    Nonce,
    /// The snapshot was not written, or its files are not there.
    NoFiles,
    /// The guest could not be given its credentials back.
    Replumb,
}

/// How it went.
#[derive(Debug, Clone, Copy, PartialEq, Eq, Structural)]
pub enum SnapEvent {
    /// It succeeded.
    Done,
    /// It failed.
    Failed,
}

/// The state of an attempt.
#[derive(Debug, Clone, Copy, PartialEq, Eq, Structural)]
pub struct SnapRun {
    /// Must the guest be scrubbed?
    pub scrub: bool,
    /// Does the guest need its credentials back?
    pub creds: bool,
    /// What to do next.
    pub next: SnapAction,
    /// Did the broker say that it takes credentials back?
    pub restorable: bool,
    /// Have the credentials been dropped?
    pub scrubbed: bool,
    /// Has the nonce been noted?
    pub noted: bool,
    /// May the VM be paused?
    pub paused: bool,
    /// Was the snapshot written?
    pub created: bool,
    /// Are its files there?
    pub files: bool,
    /// Why there is no snapshot, if there is none.
    pub fault: Option<SnapFault>,
}

/// What is done first.
pub open spec fn first_action(scrub: bool, creds: bool) -> SnapAction {
    if creds {
        SnapAction::Probe
    } else if scrub {
        SnapAction::Scrub
    } else {
        SnapAction::MakeDir
    }
}

/// The first state of an attempt on the VM of a workspace, or of any other app.
pub open spec fn snap_start(is_workspace: bool, has_caps: bool) -> SnapRun {
    SnapRun {
        scrub: is_workspace,
        creds: is_workspace && has_caps,
        next: first_action(is_workspace, is_workspace && has_caps),
        restorable: false,
        scrubbed: false,
        noted: false,
        paused: false,
        created: false,
        files: false,
        fault: None,
    }
}

/// The state after the attempt was given up before the VM was touched.
pub open spec fn given_up(s: SnapRun, f: SnapFault) -> SnapRun {
    SnapRun { next: SnapAction::Stop, fault: Some(f), ..s }
}

/// The state after the next action went as `e` says. From the pause on every
/// way leads over making sure that the VM runs. Files that are there count
/// only if this attempt wrote them: those of an earlier one do not.
pub open spec fn snap_after(s: SnapRun, e: SnapEvent) -> SnapRun {
    let ok = e == SnapEvent::Done;
    match s.next {
        SnapAction::Probe => if ok {
            SnapRun { next: SnapAction::Scrub, restorable: true, ..s }
        } else {
            given_up(s, SnapFault::Probe)
        },
        SnapAction::Scrub => if !ok {
            given_up(s, SnapFault::Scrub)
        } else if s.creds {
            SnapRun { next: SnapAction::NoteNonce, scrubbed: true, ..s }
        } else {
            SnapRun { next: SnapAction::MakeDir, scrubbed: true, ..s }
        },
        SnapAction::NoteNonce => if ok {
            SnapRun { next: SnapAction::MakeDir, noted: true, ..s }
        } else {
            given_up(s, SnapFault::Nonce)
        },
        SnapAction::MakeDir => if ok {
            SnapRun { next: SnapAction::Pause, ..s }
        } else {
            SnapRun { next: SnapAction::EnsureResumed, ..s }
        },
        SnapAction::Pause => if ok {
            SnapRun { next: SnapAction::Create, paused: true, ..s }
        } else {
            SnapRun { next: SnapAction::EnsureResumed, paused: true, ..s }
        },
        SnapAction::Create => SnapRun {
            next: if ok {
                SnapAction::Resume
            } else {
                SnapAction::EnsureResumed
            },
            created: ok,
            ..s
        },
        SnapAction::Resume => SnapRun { next: SnapAction::EnsureResumed, ..s },
        SnapAction::EnsureResumed => SnapRun { next: SnapAction::Inspect, paused: s.paused && !ok, ..s },
        SnapAction::Inspect => if !ok || !s.created {
            if s.creds {
                SnapRun { next: SnapAction::Replumb, fault: Some(SnapFault::NoFiles), ..s }
            } else {
                given_up(s, SnapFault::NoFiles)
            }
        } else if s.creds {
            SnapRun { next: SnapAction::Replumb, files: true, ..s }
        } else {
            SnapRun { next: SnapAction::Stop, files: true, ..s }
        },
        SnapAction::Replumb => if ok {
            SnapRun { next: SnapAction::Stop, ..s }
        } else {
            SnapRun { next: SnapAction::Clear, fault: Some(SnapFault::Replumb), ..s }
        },
        SnapAction::Clear => SnapRun { next: SnapAction::Stop, files: false, ..s },
        SnapAction::Stop => s,
    }
}

impl SnapRun {
    /// The first state of an attempt. Only a workspace is scrubbed, and only
    /// one with cap files is given its credentials back.
    pub fn new(is_workspace: bool, has_caps: bool) -> (r: Self)
        ensures
            r == snap_start(is_workspace, has_caps),
    {
        let scrub: bool = must_scrub_before_snapshot(is_workspace);
        let creds: bool = is_workspace && has_caps;
        SnapRun {
            scrub,
            creds,
            next: if creds {
                SnapAction::Probe
            } else if scrub {
                SnapAction::Scrub
            } else {
                SnapAction::MakeDir
            },
            restorable: false,
            scrubbed: false,
            noted: false,
            paused: false,
            created: false,
            files: false,
            fault: None,
        }
    }

    /// Goes on after the next action went as `e` says.
    pub fn advance(&mut self, e: SnapEvent)
        ensures
            *final(self) == snap_after(*old(self), e),
    {
        let ok: bool = e == SnapEvent::Done;
        match self.next {
            SnapAction::Probe => {
                if ok {
                    self.restorable = true;
                    self.next = SnapAction::Scrub;
                } else {
                    self.give_up(SnapFault::Probe);
                }
            },
            SnapAction::Scrub => {
                if ok {
                    self.scrubbed = true;
                    self.next = if self.creds {
                        SnapAction::NoteNonce
                    } else {
                        SnapAction::MakeDir
                    };
                } else {
                    self.give_up(SnapFault::Scrub);
                }
            },
            SnapAction::NoteNonce => {
                if ok {
                    self.noted = true;
                    self.next = SnapAction::MakeDir;
                } else {
                    self.give_up(SnapFault::Nonce);
                }
            },
            SnapAction::MakeDir => {
                self.next = if ok {
                    SnapAction::Pause
                } else {
                    SnapAction::EnsureResumed
                };
            },
            SnapAction::Pause => {
                self.paused = true;
                self.next = if ok {
                    SnapAction::Create
                } else {
                    SnapAction::EnsureResumed
                };
            },
            SnapAction::Create => {
                self.created = ok;
                self.next = if ok {
                    SnapAction::Resume
                } else {
                    SnapAction::EnsureResumed
                };
            },
            SnapAction::Resume => {
                self.next = SnapAction::EnsureResumed;
            },
            SnapAction::EnsureResumed => {
                self.paused = self.paused && !ok;
                self.next = SnapAction::Inspect;
            },
            SnapAction::Inspect => {
                if !ok || !self.created {
                    self.fault = Some(SnapFault::NoFiles);
                } else {
                    self.files = true;
                }
                self.next = if self.creds {
                    SnapAction::Replumb
                } else {
                    SnapAction::Stop
                };
            },
            SnapAction::Replumb => {
                if ok {
                    self.next = SnapAction::Stop;
                } else {
                    self.fault = Some(SnapFault::Replumb);
                    self.next = SnapAction::Clear;
                }
            },
            SnapAction::Clear => {
                self.files = false;
                self.next = SnapAction::Stop;
            },
            SnapAction::Stop => {},
        }
    }

    /// Gives the attempt up before the VM was touched.
    fn give_up(&mut self, f: SnapFault)
        ensures
            *final(self) == given_up(*old(self), f),
    {
        self.next = SnapAction::Stop;
        self.fault = Some(f);
    }
}

/// The state after a number of actions.
pub open spec fn snap_all(s: SnapRun, events: Seq<SnapEvent>) -> SnapRun
    decreases events.len(),
{
    if events.len() == 0 {
        s
    } else {
        snap_after(snap_all(s, events.drop_last()), events.last())
    }
}

/// Is the VM already being frozen, or has it been?
pub open spec fn freezing(a: SnapAction) -> bool {
    match a {
        SnapAction::Probe => false,
        SnapAction::Scrub => false,
        SnapAction::NoteNonce => false,
        SnapAction::Stop => false,
        _ => true,
    }
}

/// What holds of every state of an attempt.
pub open spec fn snap_inv(s: SnapRun) -> bool {
    &&& s.creds ==> s.scrub
    &&& freezing(s.next) ==> (s.scrub ==> s.scrubbed)
    &&& freezing(s.next) ==> (s.creds ==> s.restorable && s.noted)
    &&& s.next == SnapAction::Scrub ==> s.scrub && (s.creds ==> s.restorable)
    &&& s.next == SnapAction::NoteNonce ==> s.creds && s.restorable && s.scrubbed
    &&& s.next == SnapAction::Probe ==> s.creds
    &&& s.scrubbed ==> s.scrub && (s.creds ==> s.restorable)
    &&& (s.next == SnapAction::Replumb || s.next == SnapAction::Clear) ==> s.creds
    &&& s.next == SnapAction::Stop && s.fault is None ==> s.files && (s.scrub ==> s.scrubbed) && (s.creds ==> s.restorable && s.noted)
    &&& s.next == SnapAction::Stop && s.fault is Some ==> !s.files
    &&& s.files ==> s.created
    &&& s.files ==> s.fault is None || s.fault == Some(SnapFault::Replumb)
    &&& s.fault is Some ==> s.next == SnapAction::Stop || s.next == SnapAction::Replumb || s.next == SnapAction::Clear
    &&& s.next == SnapAction::Clear ==> s.fault is Some
    &&& s.next == SnapAction::Replumb ==> s.fault is None && s.files || s.fault == Some(SnapFault::NoFiles) && !s.files
    &&& !freezing(s.next) && s.next != SnapAction::Stop ==> !s.paused && !s.files && s.fault is None
    &&& (s.next == SnapAction::MakeDir || s.next == SnapAction::Pause) ==> !s.paused
    &&& (s.next != SnapAction::Replumb && s.next != SnapAction::Clear && s.next != SnapAction::Stop) ==> !s.files && s.fault is None
}

/// Every state that an attempt reaches keeps these.
pub proof fn law_snap_inv(is_workspace: bool, has_caps: bool, events: Seq<SnapEvent>)
    ensures
        ({
            let s = snap_all(snap_start(is_workspace, has_caps), events);
            &&& snap_inv(s)
            &&& s.scrub == is_workspace
            &&& s.creds == (is_workspace && has_caps)
        }),
    decreases events.len(),
{
    if events.len() > 0 {
        law_snap_inv(is_workspace, has_caps, events.drop_last());
    }
}

/// A workspace is paused and frozen only after its broker dropped its
/// credentials: no failure to drop them is ever followed by a snapshot.
pub proof fn law_no_secret_is_frozen(has_caps: bool, events: Seq<SnapEvent>)
    ensures
        ({
            let s = snap_all(snap_start(true, has_caps), events);
            &&& s.next == SnapAction::Pause || s.next == SnapAction::Create ==> s.scrubbed
            &&& s.files ==> s.scrubbed
            &&& s.fault == Some(SnapFault::Scrub) || s.fault == Some(SnapFault::Probe) ==> s.next == SnapAction::Stop && !s.files
        }),
    decreases events.len(),
{
    law_snap_inv(true, has_caps, events);
    if events.len() > 0 {
        law_no_secret_is_frozen(has_caps, events.drop_last());
        law_snap_inv(true, has_caps, events.drop_last());
    }
}

/// Credentials are dropped only from a guest that can be given them back, and
/// the nonce is noted before anything is frozen.
pub proof fn law_scrub_only_restorable(events: Seq<SnapEvent>)
    ensures
        ({
            let s = snap_all(snap_start(true, true), events);
            &&& s.next == SnapAction::Scrub || s.scrubbed ==> s.restorable
            &&& s.next == SnapAction::Pause || s.next == SnapAction::Create || s.files ==> s.noted
        }),
    decreases events.len(),
{
    law_snap_inv(true, true, events);
    if events.len() > 0 {
        law_scrub_only_restorable(events.drop_last());
        law_snap_inv(true, true, events.drop_last());
    }
}

/// An attempt that is over left the VM running, unless it could not be
/// resumed for as long as that was tried.
pub proof fn law_never_left_paused(is_workspace: bool, has_caps: bool, events: Seq<SnapEvent>)
    requires
        forall|i: int| 0 <= i < events.len() && snap_all(snap_start(is_workspace, has_caps), events.take(i)).next
            == SnapAction::EnsureResumed ==> #[trigger] events[i] == SnapEvent::Done,
    ensures
        ({
            let s = snap_all(snap_start(is_workspace, has_caps), events);
            s.paused ==> s.next == SnapAction::Create || s.next == SnapAction::Resume || s.next == SnapAction::EnsureResumed
        }),
    decreases events.len(),
{
    law_snap_inv(is_workspace, has_caps, events);
    if events.len() > 0 {
        let start = snap_start(is_workspace, has_caps);
        let head = events.drop_last();
        assert(events.take(events.len() - 1) =~= head);
        assert forall|i: int| 0 <= i < head.len() && snap_all(start, head.take(i)).next == SnapAction::EnsureResumed implies #[trigger] head[i]
            == SnapEvent::Done by {
            assert(head.take(i) =~= events.take(i));
            assert(events[i] == head[i]);
        }
        law_never_left_paused(is_workspace, has_caps, head);
        law_snap_inv(is_workspace, has_caps, head);
        let s = snap_all(start, head);
        if s.next == SnapAction::EnsureResumed {
            assert(events[events.len() - 1] == SnapEvent::Done);
        }
    }
}

/// An attempt that did not write the snapshot is never taken for one that
/// did, whatever files of an earlier one are there: it counts none of them,
/// and it ends in a failure.
pub proof fn law_unwritten_is_a_failure(is_workspace: bool, has_caps: bool, events: Seq<SnapEvent>)
    requires
        forall|i: int| 0 <= i < events.len() && snap_all(snap_start(is_workspace, has_caps), events.take(i)).next
            == SnapAction::Create ==> #[trigger] events[i] == SnapEvent::Failed,
    ensures
        ({
            let s = snap_all(snap_start(is_workspace, has_caps), events);
            &&& !s.created
            &&& !s.files
            &&& s.next == SnapAction::Stop ==> s.fault is Some
        }),
    decreases events.len(),
{
    law_snap_inv(is_workspace, has_caps, events);
    if events.len() > 0 {
        let start = snap_start(is_workspace, has_caps);
        let head = events.drop_last();
        assert(events.take(events.len() - 1) =~= head);
        assert forall|i: int| 0 <= i < head.len() && snap_all(start, head.take(i)).next == SnapAction::Create implies #[trigger] head[i]
            == SnapEvent::Failed by {
            assert(head.take(i) =~= events.take(i));
            assert(events[i] == head[i]);
        }
        law_unwritten_is_a_failure(is_workspace, has_caps, head);
        let s = snap_all(start, head);
        if s.next == SnapAction::Create {
            assert(events[events.len() - 1] == SnapEvent::Failed);
        }
    }
}

/// The actions of a snapshot in which nothing fails, in order. The broker of a
/// workspace with credentials is asked whether it takes them back, has them
/// dropped and its nonce noted; that of any other workspace only drops what it
/// has. Then the directory is made, the VM paused, written out, resumed and
/// made sure of, and the files are looked for. Last, credentials that were
/// dropped are handed back.
pub open spec fn snap_script(is_workspace: bool, has_caps: bool) -> Seq<SnapAction> {
    let before = if is_workspace && has_caps {
        seq![SnapAction::Probe, SnapAction::Scrub, SnapAction::NoteNonce]
    } else if is_workspace {
        seq![SnapAction::Scrub]
    } else {
        Seq::empty()
    };
    let behind = if is_workspace && has_caps {
        seq![SnapAction::Replumb]
    } else {
        Seq::empty()
    };
    before + seq![
        SnapAction::MakeDir,
        SnapAction::Pause,
        SnapAction::Create,
        SnapAction::Resume,
        SnapAction::EnsureResumed,
        SnapAction::Inspect,
    ] + behind
}

/// The script's action number `i`; behind its end there is nothing to do.
pub open spec fn snap_at(is_workspace: bool, has_caps: bool, i: int) -> SnapAction {
    let script = snap_script(is_workspace, has_caps);
    if i < script.len() {
        script[i]
    } else {
        SnapAction::Stop
    }
}

/// May the action fail without the snapshot failing? So it is with resuming.
pub open spec fn snap_may_fail(a: SnapAction) -> bool {
    a == SnapAction::Resume || a == SnapAction::EnsureResumed || a == SnapAction::Clear || a == SnapAction::Stop
}

/// Do the first `n` actions of the script succeed, where they must?
pub open spec fn snap_goes_well(is_workspace: bool, has_caps: bool, events: Seq<SnapEvent>, n: int) -> bool {
    forall|i: int| 0 <= i < n ==> #[trigger] events[i] == SnapEvent::Done || snap_may_fail(snap_at(is_workspace, has_caps, i))
}

/// A snapshot goes by the script for as long as nothing fails that must not;
/// at its end its files are there.
pub proof fn law_snapshot_goes_by_the_script(is_workspace: bool, has_caps: bool, events: Seq<SnapEvent>)
    requires
        snap_goes_well(is_workspace, has_caps, events, events.len() as int),
    ensures
        ({
            let s = snap_all(snap_start(is_workspace, has_caps), events);
            &&& s.next == snap_at(is_workspace, has_caps, events.len() as int)
            &&& s.fault is None
            &&& s.created == (events.len() >= 3 + if is_workspace && has_caps {
                3int
            } else if is_workspace {
                1
            } else {
                0
            })
            &&& s.next == SnapAction::Stop ==> s.files
        }),
    decreases events.len(),
{
    law_snap_inv(is_workspace, has_caps, events);
    if events.len() > 0 {
        let head = events.drop_last();
        assert forall|i: int| 0 <= i < head.len() implies #[trigger] head[i] == SnapEvent::Done || snap_may_fail(
            snap_at(is_workspace, has_caps, i),
        ) by {
            assert(events[i] == head[i]);
        }
        law_snapshot_goes_by_the_script(is_workspace, has_caps, head);
        law_snap_inv(is_workspace, has_caps, head);
        let n = events.len() - 1;
        assert(events[n] == SnapEvent::Done || snap_may_fail(snap_at(is_workspace, has_caps, n)));
    }
}

/// What is done, in order, after action `a` failed: nothing where the VM was
/// not touched yet; where it may be paused it is resumed, and credentials that
/// were dropped are handed back. Where they cannot be, the snapshot goes.
pub open spec fn snap_recovery(a: SnapAction, creds: bool) -> Seq<SnapAction> {
    let back = if creds {
        seq![SnapAction::Replumb]
    } else {
        Seq::empty()
    };
    match a {
        SnapAction::MakeDir => seq![SnapAction::EnsureResumed, SnapAction::Inspect] + back,
        SnapAction::Pause => seq![SnapAction::EnsureResumed, SnapAction::Inspect] + back,
        SnapAction::Create => seq![SnapAction::EnsureResumed, SnapAction::Inspect] + back,
        SnapAction::Inspect => back,
        SnapAction::Replumb => seq![SnapAction::Clear],
        _ => Seq::empty(),
    }
}

/// The first action that fails though it must not has the recovery done and
/// then nothing more, and if nothing else fails that is the fault it ends
/// with, and there is no snapshot.
pub proof fn law_failed_snapshot_recovers(is_workspace: bool, has_caps: bool, events: Seq<SnapEvent>, n: int)
    requires
        0 <= n < events.len(),
        snap_goes_well(is_workspace, has_caps, events, n),
        events[n] == SnapEvent::Failed,
        !snap_may_fail(snap_at(is_workspace, has_caps, n)),
        forall|i: int| n < i < events.len() ==> #[trigger] events[i] == SnapEvent::Done,
    ensures
        ({
            let s = snap_all(snap_start(is_workspace, has_caps), events);
            let a = snap_at(is_workspace, has_caps, n);
            let done = snap_recovery(a, is_workspace && has_caps);
            let k = events.len() - n - 1;
            &&& s.next == if k < done.len() {
                done[k]
            } else {
                SnapAction::Stop
            }
            &&& s.next == SnapAction::Stop ==> !s.files && s.fault == Some(
                match a {
                    SnapAction::Probe => SnapFault::Probe,
                    SnapAction::Scrub => SnapFault::Scrub,
                    SnapAction::NoteNonce => SnapFault::Nonce,
                    SnapAction::Replumb => SnapFault::Replumb,
                    _ => SnapFault::NoFiles,
                },
            )
            &&& k > 0 && (a == SnapAction::MakeDir || a == SnapAction::Pause || a == SnapAction::Create) ==> !s.paused
        }),
    decreases events.len(),
{
    let head = events.drop_last();
    law_snap_inv(is_workspace, has_caps, events);
    law_snap_inv(is_workspace, has_caps, head);
    assert forall|i: int| 0 <= i < n implies #[trigger] head[i] == SnapEvent::Done || snap_may_fail(snap_at(is_workspace, has_caps, i)) by {
        assert(events[i] == head[i]);
    }
    let a = snap_at(is_workspace, has_caps, n);
    if events.len() == n + 1 {
        law_snapshot_goes_by_the_script(is_workspace, has_caps, head);
    } else {
        assert(head[n] == events[n]);
        assert forall|i: int| n < i < head.len() implies #[trigger] head[i] == SnapEvent::Done by {
            assert(events[i] == head[i]);
        }
        law_failed_snapshot_recovers(is_workspace, has_caps, head, n);
        if a == SnapAction::MakeDir || a == SnapAction::Pause || a == SnapAction::Create {
            not_created(is_workspace, has_caps, head, n);
        }
        assert(events[events.len() - 1] == SnapEvent::Done);
    }
}

/// A snapshot that failed up to its creation was not created.
proof fn not_created(is_workspace: bool, has_caps: bool, events: Seq<SnapEvent>, n: int)
    requires
        0 <= n < events.len(),
        snap_goes_well(is_workspace, has_caps, events, n),
        events[n] == SnapEvent::Failed,
        ({
            let a = snap_at(is_workspace, has_caps, n);
            a == SnapAction::MakeDir || a == SnapAction::Pause || a == SnapAction::Create
        }),
    ensures
        !snap_all(snap_start(is_workspace, has_caps), events).created,
        snap_all(snap_start(is_workspace, has_caps), events).next != SnapAction::Create,
        snap_all(snap_start(is_workspace, has_caps), events).next != SnapAction::Pause,
        snap_all(snap_start(is_workspace, has_caps), events).next != SnapAction::MakeDir,
        !(snap_all(snap_start(is_workspace, has_caps), events).next is Probe),
        !(snap_all(snap_start(is_workspace, has_caps), events).next is Scrub),
        !(snap_all(snap_start(is_workspace, has_caps), events).next is NoteNonce),
    decreases events.len(),
{
    let head = events.drop_last();
    assert forall|i: int| 0 <= i < n implies #[trigger] head[i] == SnapEvent::Done || snap_may_fail(snap_at(is_workspace, has_caps, i)) by {
        assert(events[i] == head[i]);
    }
    if events.len() == n + 1 {
        law_snapshot_goes_by_the_script(is_workspace, has_caps, head);
    } else {
        assert(head[n] == events[n]);
        not_created(is_workspace, has_caps, head, n);
    }
}

// ---- dropping credentials -----------------------------------------------------------

/// Where the broker drops its credentials.
pub open spec fn scrub_url_of(guest_ip: nat) -> Seq<char> {
    "http://"@ + guest_addr(guest_ip, GUEST_BROKER_CTRL_PORT as nat) + PRE_SNAPSHOT_SCRUB_PATH@
}

/// Where the broker drops its credentials.
pub fn scrub_url(guest_ip: u32) -> (r: String)
    ensures
        r@ == scrub_url_of(guest_ip as nat),
{
    let addr = guest_broker_ctrl_addr(guest_ip);
    concat3("http://", &addr, PRE_SNAPSHOT_SCRUB_PATH)
}

/// What is said of a broker that cannot be reached.
pub open spec fn scrub_unreachable_text(url: Seq<char>) -> Seq<char> {
    "pre-snapshot scrub POST to "@ + url + " failed (workspace broker unreachable)"@
}

/// What is said of a broker that does not drop its credentials.
pub open spec fn scrub_refused_text(status: u16) -> Seq<char> {
    "pre-snapshot scrub returned HTTP "@ + status_line(status) + "; aborting snapshot (would freeze a held secret)"@
}

/// Judges the answer to the request that credentials be dropped; `None` is no
/// answer at all. Without a yes the snapshot must not be taken. Only a
/// workspace is asked.
pub fn pre_snapshot_scrub(is_workspace: bool, url: &str, status: Option<u16>) -> (r: Result<(), String>)
    requires
        status matches Some(s) ==> is_status(s),
    ensures
        r is Ok <==> !is_workspace || (status is Some && success(status->Some_0)),
        r is Ok && is_workspace ==> status is Some && status->Some_0 / 100 == 2,
        r is Err ==> r->Err_0@ == match status {
            Some(s) => scrub_refused_text(s),
            None => scrub_unreachable_text(url@),
        },
{
    if !must_scrub_before_snapshot(is_workspace) {
        return Ok(());
    }
    match status {
        Some(s) => {
            if is_success(s) {
                return Ok(());
            }
            let st = status_text(s);
            Err(concat3("pre-snapshot scrub returned HTTP ", &st, "; aborting snapshot (would freeze a held secret)"))
        },
        None => Err(concat3("pre-snapshot scrub POST to ", url, " failed (workspace broker unreachable)")),
    }
}

// ---- making sure that the VM runs -----------------------------------------------------

/// What to do after an attempt to resume the VM.
#[derive(Debug, Clone, Copy, PartialEq, Eq, Structural)]
pub enum ResumeStep {
    /// It runs.
    Running,
    /// It may be paused, and the time is up.
    GiveUp,
    /// Try again after the poll interval.
    Sleep,
}

/// Does a refusal say that the VM was not paused, so that it runs already?
/// That is one that puts the fault on the request.
pub open spec fn not_paused(status: u16) -> bool {
    400 <= status < 500
}

/// What to do after an attempt to resume the VM; `None` is no answer.
pub fn ensure_resumed(status: Option<u16>, now_ms: u64, deadline_ms: u64) -> (r: ResumeStep)
    ensures
        r == if status is Some && (success(status->Some_0) || not_paused(status->Some_0)) {
            ResumeStep::Running
        } else if now_ms >= deadline_ms {
            ResumeStep::GiveUp
        } else {
            ResumeStep::Sleep
        },
        r is Running <==> status is Some && (status->Some_0 / 100 == 2 || status->Some_0 / 100 == 4),
        !(r is Running) ==> (r is GiveUp <==> now_ms >= deadline_ms),
{
    match status {
        Some(s) => {
            if is_success(s) || (400 <= s && s < 500) {
                return ResumeStep::Running;
            }
        },
        None => {},
    }
    if now_ms >= deadline_ms {
        ResumeStep::GiveUp
    } else {
        ResumeStep::Sleep
    }
}

// ---- stamping -------------------------------------------------------------------------

/// The directory after the snapshot of a running VM was stamped with what is
/// known of its image and its environment.
pub open spec fn stamped_live(cache: CacheModel, image_ref: Option<Seq<char>>, env_hash: Option<Seq<char>>) -> CacheModel {
    let c = match image_ref {
        Some(i) => CacheModel { snapshot_ref: Some(i), ..cache },
        None => cache,
    };
    match env_hash {
        Some(e) => CacheModel { snapshot_env: Some(e), ..c },
        None => c,
    }
}

/// Stamps the snapshot of a running VM, if it was written and its files are
/// there; else nothing is stamped, and it is said that they are not. Files
/// that an earlier snapshot left are not stamped anew.
pub fn stamp_live_snapshot(
    cache: &mut CacheDir,
    cache_dir: &str,
    created: bool,
    image_ref: Option<&str>,
    env_hash: Option<&str>,
) -> (r: Result<(), String>)
    ensures
        r is Ok <==> created && has_files(old(cache)@),
        r is Ok ==> final(cache)@ == stamped_live(old(cache)@, opt_str(image_ref), opt_str(env_hash)),
        r is Err ==> final(cache)@ == old(cache)@ && r->Err_0@ == "Cmd::Snapshot: snapshot create did not produce files at "@
            + cache_dir@,
{
    if !created || !files_present(cache) {
        return Err(concat2("Cmd::Snapshot: snapshot create did not produce files at ", cache_dir));
    }
    match image_ref {
        Some(i) => {
            write_ref(cache, i);
        },
        None => {},
    }
    match env_hash {
        Some(e) => {
            write_env(cache, e);
        },
        None => {},
    }
    Ok(())
}

/// The snapshot of a running VM is stamped with what is known of it: what is
/// unknown stays as it was noted, and nothing else is touched.
pub proof fn law_live_stamps(cache: CacheModel, image_ref: Option<Seq<char>>, env_hash: Option<Seq<char>>)
    ensures
        ({
            let after = stamped_live(cache, image_ref, env_hash);
            &&& image_ref is Some ==> after.snapshot_ref == image_ref
            &&& image_ref is None ==> after.snapshot_ref == cache.snapshot_ref
            &&& env_hash is Some ==> after.snapshot_env == env_hash
            &&& env_hash is None ==> after.snapshot_env == cache.snapshot_env
            &&& after.vmstate == cache.vmstate && after.mem == cache.mem && after.restore_token == cache.restore_token
            &&& after.app_port == cache.app_port && after.link == cache.link && after.suppressed == cache.suppressed
        }),
{
}

} // verus!
