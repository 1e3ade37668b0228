//! Bringing one microVM up, and taking it down again if that fails.
//!
//! The run of a VM is a state machine: it says what to do next, and is told
//! how it went. What a VM leaves on the host, it keeps account of.
use vstd::prelude::*;

verus! {

/// Which run this is.
#[derive(Debug, Clone, Copy, PartialEq, Eq, Structural)]
pub enum VmKind {
    /// A serving VM that boots its image.
    Cold,
    /// A serving VM that is loaded from a snapshot.
    Warm,
    /// The build VM, which runs until it powers off.
    Build,
}

/// Where a run failed.
#[derive(Debug, Clone, Copy, PartialEq, Eq, Structural)]
pub enum VmFault {
    /// A command of the TAP setup.
    Tap(usize),
    /// The spawn of the firecracker process.
    Spawn,
    /// Its API socket did not appear.
    Socket,
    /// An API call.
    Call(usize),
    /// The guest app did not answer in time.
    Ready,
    /// Waiting for the process failed.
    Exit,
    /// The build did not end in time.
    Timeout,
}

/// What to do next.
#[derive(Debug, Clone, Copy, PartialEq, Eq, Structural)]
pub enum VmAction {
    /// Delete a TAP of that name; it may not be there.
    ClearTap,
    /// Run a command of the TAP setup.
    SetupTap(usize),
    /// Set up the guest's way out, as far as it goes.
    SetupNat,
    /// Remove a stale API socket; it may not be there.
    ClearSocket,
    /// Spawn the firecracker process.
    Spawn,
    /// Wait for its API socket.
    AwaitSocket,
    /// Make an API call.
    Call(usize),
    /// Wait for the guest app to answer.
    AwaitReady,
    /// Wait for the process to exit.
    AwaitExit,
    /// Kill the process and reap it.
    KillChild,
    /// Stop the scope of the process.
    StopScope,
    /// Remove the API socket.
    RemoveSocket,
    /// Delete the TAP.
    DeleteTap,
    /// Nothing: the run is over.
    Stop,
}

/// How it went.
#[derive(Debug, Clone, Copy, PartialEq, Eq, Structural)]
pub enum VmEvent {
    /// It succeeded.
    Done,
    /// It failed.
    Failed,
    /// It did not end in time.
    TimedOut,
}

/// The state of a run.
#[derive(Debug, Clone, Copy, PartialEq, Eq, Structural)]
pub struct VmRun {
    /// Which run this is.
    pub kind: VmKind,
    /// The number of API calls to make.
    pub calls: usize,
    /// Does the process run in a scope?
    pub scoped: bool,
    /// What to do next.
    pub next: VmAction,
    /// Is there a process that was spawned and not seen to end?
    pub child: bool,
    /// Is there a TAP that was made and not deleted?
    pub tap: bool,
    /// Where the run failed, if it did.
    pub fault: Option<VmFault>,
}

/// The first state of a run.
pub open spec fn run_start(kind: VmKind, calls: usize, scoped: bool) -> VmRun {
    VmRun { kind, calls, scoped, next: VmAction::ClearTap, child: false, tap: false, fault: None }
}

/// What is done once the API calls are made.
pub open spec fn after_calls(kind: VmKind) -> VmAction {
    match kind {
        VmKind::Build => VmAction::AwaitExit,
        _ => VmAction::AwaitReady,
    }
}

/// The state after a failure that leaves the process to be killed.
pub open spec fn to_teardown(s: VmRun, fault: VmFault) -> VmRun {
    VmRun { next: VmAction::KillChild, fault: Some(fault), ..s }
}

/// The state after a failure from which nothing is taken down.
pub open spec fn to_stop(s: VmRun, fault: VmFault) -> VmRun {
    VmRun { next: VmAction::Stop, fault: Some(fault), ..s }
}

/// The state after the next action went as `e` says.
///
/// Up to the spawn a failure ends the run as it is. Behind it, a failure has
/// the process killed, its scope stopped, the socket removed and the TAP
/// deleted, in that order. Clean-ups count as done however they went.
pub open spec fn run_after(s: VmRun, e: VmEvent) -> VmRun {
    let ok = e == VmEvent::Done;
    match s.next {
        VmAction::ClearTap => VmRun { next: VmAction::SetupTap(0), ..s },
        VmAction::SetupTap(i) => if !ok {
            to_stop(s, VmFault::Tap(i))
        } else if i < 2 {
            VmRun { next: VmAction::SetupTap((i + 1) as usize), tap: true, ..s }
        } else if s.kind == VmKind::Warm {
            VmRun { next: VmAction::ClearSocket, tap: true, ..s }
        } else {
            VmRun { next: VmAction::SetupNat, tap: true, ..s }
        },
        VmAction::SetupNat => VmRun { next: VmAction::ClearSocket, ..s },
        VmAction::ClearSocket => VmRun { next: VmAction::Spawn, ..s },
        VmAction::Spawn => if !ok {
            to_stop(s, VmFault::Spawn)
        } else {
            VmRun { next: VmAction::AwaitSocket, child: true, ..s }
        },
        VmAction::AwaitSocket => if !ok {
            to_teardown(s, VmFault::Socket)
        } else if s.calls == 0 {
            VmRun { next: after_calls(s.kind), ..s }
        } else {
            VmRun { next: VmAction::Call(0), ..s }
        },
        VmAction::Call(i) => if !ok {
            to_teardown(s, VmFault::Call(i))
        } else if i + 1 < s.calls {
            VmRun { next: VmAction::Call((i + 1) as usize), ..s }
        } else {
            VmRun { next: after_calls(s.kind), ..s }
        },
        VmAction::AwaitReady => if !ok {
            to_teardown(s, VmFault::Ready)
        } else {
            VmRun { next: VmAction::Stop, ..s }
        },
        VmAction::AwaitExit => match e {
            VmEvent::Done => VmRun { next: VmAction::RemoveSocket, child: false, ..s },
            VmEvent::Failed => VmRun { next: VmAction::RemoveSocket, fault: Some(VmFault::Exit), ..s },
            VmEvent::TimedOut => to_teardown(s, VmFault::Timeout),
        },
        VmAction::KillChild => VmRun {
            next: if s.scoped {
                VmAction::StopScope
            } else {
                VmAction::RemoveSocket
            },
            child: false,
            ..s
        },
        VmAction::StopScope => VmRun { next: VmAction::RemoveSocket, ..s },
        VmAction::RemoveSocket => VmRun { next: VmAction::DeleteTap, ..s },
        VmAction::DeleteTap => VmRun { next: VmAction::Stop, tap: false, ..s },
        VmAction::Stop => s,
    }
}

impl VmRun {
    /// The first state of a run.
    pub fn new(kind: VmKind, calls: usize, scoped: bool) -> (r: Self)
        ensures
            r == run_start(kind, calls, scoped),
    {
        VmRun { kind, calls, scoped, next: VmAction::ClearTap, child: false, tap: false, fault: None }
    }

    /// Is every index of the state in range?
    pub open spec fn wf(self) -> bool {
        match self.next {
            VmAction::SetupTap(i) => i < 3,
            VmAction::Call(i) => i < self.calls,
            _ => true,
        }
    }

    /// Goes on after the next action went as `e` says.
    pub fn advance(&mut self, e: VmEvent)
        requires
            old(self).wf(),
        ensures
            *final(self) == run_after(*old(self), e),
            final(self).wf(),
    {
        let ok: bool = e == VmEvent::Done;
        match self.next {
            VmAction::ClearTap => {
                self.next = VmAction::SetupTap(0);
            },
            VmAction::SetupTap(i) => {
                if !ok {
                    self.next = VmAction::Stop;
                    self.fault = Some(VmFault::Tap(i));
                } else {
                    self.tap = true;
                    self.next = if i < 2 {
                        VmAction::SetupTap(i + 1)
                    } else if self.kind == VmKind::Warm {
                        VmAction::ClearSocket
                    } else {
                        VmAction::SetupNat
                    };
                }
            },
            VmAction::SetupNat => {
                self.next = VmAction::ClearSocket;
            },
            VmAction::ClearSocket => {
                self.next = VmAction::Spawn;
            },
            VmAction::Spawn => {
                if ok {
                    self.child = true;
                    self.next = VmAction::AwaitSocket;
                } else {
                    self.next = VmAction::Stop;
                    self.fault = Some(VmFault::Spawn);
                }
            },
            VmAction::AwaitSocket => {
                if !ok {
                    self.fail(VmFault::Socket);
                } else if self.calls == 0 {
                    self.next = self.when_called();
                } else {
                    self.next = VmAction::Call(0);
                }
            },
            VmAction::Call(i) => {
                if !ok {
                    self.fail(VmFault::Call(i));
                } else if i + 1 < self.calls {
                    self.next = VmAction::Call(i + 1);
                } else {
                    self.next = self.when_called();
                }
            },
            VmAction::AwaitReady => {
                if ok {
                    self.next = VmAction::Stop;
                } else {
                    self.fail(VmFault::Ready);
                }
            },
            VmAction::AwaitExit => match e {
                VmEvent::Done => {
                    self.child = false;
                    self.next = VmAction::RemoveSocket;
                },
                VmEvent::Failed => {
                    self.fault = Some(VmFault::Exit);
                    self.next = VmAction::RemoveSocket;
                },
                VmEvent::TimedOut => {
                    self.fail(VmFault::Timeout);
                },
            },
            VmAction::KillChild => {
                self.child = false;
                self.next = if self.scoped {
                    VmAction::StopScope
                } else {
                    VmAction::RemoveSocket
                };
            },
            VmAction::StopScope => {
                self.next = VmAction::RemoveSocket;
            },
            VmAction::RemoveSocket => {
                self.next = VmAction::DeleteTap;
            },
            VmAction::DeleteTap => {
                self.tap = false;
                self.next = VmAction::Stop;
            },
            VmAction::Stop => {},
        }
    }

    /// Turns to the teardown.
    fn fail(&mut self, fault: VmFault)
        ensures
            *final(self) == to_teardown(*old(self), fault),
    {
        self.next = VmAction::KillChild;
        self.fault = Some(fault);
    }

    /// What is done once the API calls are made.
    fn when_called(&self) -> (r: VmAction)
        ensures
            r == after_calls(self.kind),
    {
        match self.kind {
            VmKind::Build => VmAction::AwaitExit,
            _ => VmAction::AwaitReady,
        }
    }
}

/// The state after a number of actions.
pub open spec fn run_all(s: VmRun, events: Seq<VmEvent>) -> VmRun
    decreases events.len(),
{
    if events.len() == 0 {
        s
    } else {
        run_after(run_all(s, events.drop_last()), events.last())
    }
}

/// Did the run fail behind the spawn, at a place from which everything is
/// taken down?
pub open spec fn taken_down(fault: VmFault) -> bool {
    match fault {
        VmFault::Socket => true,
        VmFault::Call(_) => true,
        VmFault::Ready => true,
        VmFault::Timeout => true,
        _ => false,
    }
}

/// What holds of every state of a run: the account of process and TAP is as
/// the place in the run says.
pub open spec fn run_inv(s: VmRun) -> bool {
    &&& s.wf()
    &&& match s.next {
        VmAction::ClearTap => !s.child && !s.tap && s.fault is None,
        VmAction::SetupTap(i) => !s.child && (s.tap <==> i > 0) && s.fault is None,
        VmAction::SetupNat => !s.child && s.tap && s.fault is None && s.kind != VmKind::Warm,
        VmAction::ClearSocket => !s.child && s.tap && s.fault is None,
        VmAction::Spawn => !s.child && s.tap && s.fault is None,
        VmAction::AwaitSocket => s.child && s.tap && s.fault is None,
        VmAction::Call(_) => s.child && s.tap && s.fault is None,
        VmAction::AwaitReady => s.child && s.tap && s.fault is None && s.kind != VmKind::Build,
        VmAction::AwaitExit => s.child && s.tap && s.fault is None && s.kind == VmKind::Build,
        VmAction::KillChild => s.child && s.tap && s.fault is Some && taken_down(s.fault->Some_0),
        VmAction::StopScope => !s.child && s.tap && s.scoped && s.fault is Some && taken_down(s.fault->Some_0),
        VmAction::RemoveSocket => s.tap && over_at(s),
        VmAction::DeleteTap => s.tap && over_at(s),
        VmAction::Stop => match s.fault {
            None => if s.kind == VmKind::Build {
                !s.child && !s.tap
            } else {
                s.child && s.tap
            },
            Some(VmFault::Tap(i)) => i < 3 && !s.child && (s.tap <==> i > 0),
            Some(VmFault::Spawn) => !s.child && s.tap,
            Some(VmFault::Exit) => s.kind == VmKind::Build && !s.tap,
            Some(_) => !s.child && !s.tap,
        },
    }
}

/// What holds of the process and the outcome while socket and TAP go: a build
/// that powered off left no process, one whose end could not be waited for
/// may have, and after a kill there is none.
pub open spec fn over_at(s: VmRun) -> bool {
    match s.fault {
        None => s.kind == VmKind::Build && !s.child,
        Some(VmFault::Exit) => s.kind == VmKind::Build && s.child,
        Some(f) => taken_down(f) && !s.child,
    }
}

/// One action keeps the account right.
proof fn step_keeps_inv(s: VmRun, e: VmEvent)
    requires
        run_inv(s),
    ensures
        run_inv(run_after(s, e)),
        run_after(s, e).kind == s.kind,
        run_after(s, e).calls == s.calls,
        run_after(s, e).scoped == s.scoped,
{
}

/// Every state that a run reaches keeps the account right.
pub proof fn law_run_inv(kind: VmKind, calls: usize, scoped: bool, events: Seq<VmEvent>)
    ensures
        ({
            let s = run_all(run_start(kind, calls, scoped), events);
            &&& run_inv(s)
            &&& s.kind == kind
            &&& s.calls == calls
            &&& s.scoped == scoped
        }),
    decreases events.len(),
{
    if events.len() > 0 {
        law_run_inv(kind, calls, scoped, events.drop_last());
        step_keeps_inv(run_all(run_start(kind, calls, scoped), events.drop_last()), events.last());
    }
}

/// A run of a serving VM that is over without a fault has its process and its
/// TAP; one that failed behind the spawn has left neither on the host.
pub proof fn law_serving_ends(kind: VmKind, calls: usize, scoped: bool, events: Seq<VmEvent>)
    requires
        kind != VmKind::Build,
        run_all(run_start(kind, calls, scoped), events).next == VmAction::Stop,
    ensures
        ({
            let s = run_all(run_start(kind, calls, scoped), events);
            &&& s.fault is None ==> s.child && s.tap
            &&& s.fault is Some ==> !s.child
            &&& s.fault is Some && !(s.fault->Some_0 is Tap) && s.fault->Some_0 != VmFault::Spawn ==> !s.tap
        }),
{
    law_run_inv(kind, calls, scoped, events);
}

/// A build that is over has left no TAP behind once the VM was up, and no
/// process, unless its end could not be waited for.
pub proof fn law_build_ends(calls: usize, scoped: bool, events: Seq<VmEvent>)
    requires
        run_all(run_start(VmKind::Build, calls, scoped), events).next == VmAction::Stop,
    ensures
        ({
            let s = run_all(run_start(VmKind::Build, calls, scoped), events);
            &&& s.fault is None ==> !s.child && !s.tap
            &&& s.fault is Some && s.fault->Some_0 != VmFault::Exit ==> !s.child
            &&& s.fault is Some && !(s.fault->Some_0 is Tap) && s.fault->Some_0 != VmFault::Spawn ==> !s.tap
        }),
{
    law_run_inv(VmKind::Build, calls, scoped, events);
}

/// How many actions a run has left at most.
pub open spec fn steps_left(s: VmRun) -> int {
    let calls = s.calls as int;
    match s.next {
        VmAction::ClearTap => calls + 14,
        VmAction::SetupTap(i) => calls + 13 - i,
        VmAction::SetupNat => calls + 10,
        VmAction::ClearSocket => calls + 9,
        VmAction::Spawn => calls + 8,
        VmAction::AwaitSocket => calls + 7,
        VmAction::Call(i) => calls - i + 6,
        VmAction::AwaitReady => 6,
        VmAction::AwaitExit => 6,
        VmAction::KillChild => 5,
        VmAction::StopScope => 4,
        VmAction::RemoveSocket => 3,
        VmAction::DeleteTap => 2,
        VmAction::Stop => 0,
    }
}

/// Every run ends: with each action that is not the last fewer are left, and
/// there are never more than those of a whole run.
pub proof fn law_run_ends(kind: VmKind, calls: usize, scoped: bool, events: Seq<VmEvent>, e: VmEvent)
    requires
        run_all(run_start(kind, calls, scoped), events).next != VmAction::Stop,
    ensures
        ({
            let s = run_all(run_start(kind, calls, scoped), events);
            &&& 0 <= steps_left(run_after(s, e)) < steps_left(s)
            &&& events.len() + steps_left(s) <= calls + 14
        }),
    decreases events.len(),
{
    law_run_inv(kind, calls, scoped, events);
    if events.len() > 0 {
        let before = run_all(run_start(kind, calls, scoped), events.drop_last());
        law_run_inv(kind, calls, scoped, events.drop_last());
        if before.next != VmAction::Stop {
            law_run_ends(kind, calls, scoped, events.drop_last(), events.last());
        }
    }
}

// ---- what a run does, in order --------------------------------------------------------------

/// The state of a run before its action number `i`.
pub open spec fn run_at(kind: VmKind, calls: usize, scoped: bool, events: Seq<VmEvent>, i: int) -> VmRun {
    run_all(run_start(kind, calls, scoped), events.take(i))
}

/// Did action number `i` of a run do `action`, and succeed?
pub open spec fn did(kind: VmKind, calls: usize, scoped: bool, events: Seq<VmEvent>, i: int, action: VmAction) -> bool {
    0 <= i < events.len() && run_at(kind, calls, scoped, events, i).next == action && events[i] == VmEvent::Done
}

/// One more event is one more action.
proof fn run_at_next(kind: VmKind, calls: usize, scoped: bool, events: Seq<VmEvent>, i: int)
    requires
        0 <= i < events.len(),
    ensures
        run_at(kind, calls, scoped, events, i + 1) == run_after(run_at(kind, calls, scoped, events, i), events[i]),
{
    assert(events.take(i + 1).drop_last() =~= events.take(i));
    assert(events.take(i + 1).last() == events[i]);
}

/// How many of a run's actions come before its first API call. A warm start
/// needs no translation of its own.
pub open spec fn calls_from(kind: VmKind) -> int {
    if kind == VmKind::Warm {
        7
    } else {
        8
    }
}

/// The action number `i` of a run in which nothing fails: the TAP is cleared
/// and made by its three commands, the guest gets its way out, the socket is
/// cleared, firecracker is spawned and its socket awaited, the calls follow in
/// order, and then the app is awaited. A build is awaited to its end instead,
/// and then its socket and its TAP go.
pub open spec fn script(kind: VmKind, calls: usize, i: int) -> VmAction {
    let from = calls_from(kind);
    let to = from + calls;
    if i == 0 {
        VmAction::ClearTap
    } else if i < 4 {
        VmAction::SetupTap((i - 1) as usize)
    } else if i < from - 3 {
        VmAction::SetupNat
    } else if i == from - 3 {
        VmAction::ClearSocket
    } else if i == from - 2 {
        VmAction::Spawn
    } else if i == from - 1 {
        VmAction::AwaitSocket
    } else if i < to {
        VmAction::Call((i - from) as usize)
    } else if kind != VmKind::Build {
        if i == to {
            VmAction::AwaitReady
        } else {
            VmAction::Stop
        }
    } else if i == to {
        VmAction::AwaitExit
    } else if i == to + 1 {
        VmAction::RemoveSocket
    } else if i == to + 2 {
        VmAction::DeleteTap
    } else {
        VmAction::Stop
    }
}

/// May the action fail without the run failing? So it is with clean-ups, and
/// with the guest's way out, which goes as far as it goes.
pub open spec fn may_fail(a: VmAction) -> bool {
    match a {
        VmAction::ClearTap => true,
        VmAction::SetupNat => true,
        VmAction::ClearSocket => true,
        VmAction::KillChild => true,
        VmAction::StopScope => true,
        VmAction::RemoveSocket => true,
        VmAction::DeleteTap => true,
        VmAction::Stop => true,
        _ => false,
    }
}

/// Do the first `n` actions of the script succeed, where they must?
pub open spec fn goes_well(kind: VmKind, calls: usize, events: Seq<VmEvent>, n: int) -> bool {
    forall|i: int| 0 <= i < n ==> #[trigger] events[i] == VmEvent::Done || may_fail(script(kind, calls, i))
}

/// A run goes by the script for as long as nothing fails that must not, and
/// has no fault until then.
pub proof fn law_run_goes_by_the_script(kind: VmKind, calls: usize, scoped: bool, events: Seq<VmEvent>)
    requires
        goes_well(kind, calls, events, events.len() as int),
    ensures
        run_all(run_start(kind, calls, scoped), events).next == script(kind, calls, events.len() as int),
        run_all(run_start(kind, calls, scoped), events).fault is None,
    decreases events.len(),
{
    if events.len() > 0 {
        let head = events.drop_last();
        assert forall|i: int| 0 <= i < head.len() implies #[trigger] head[i] == VmEvent::Done || may_fail(script(kind, calls, i)) by {
            assert(events[i] == head[i]);
        }
        law_run_goes_by_the_script(kind, calls, scoped, head);
        law_run_inv(kind, calls, scoped, head);
        assert(events[events.len() - 1] == VmEvent::Done || may_fail(script(kind, calls, events.len() - 1)));
    }
}

/// The place of a failure.
pub open spec fn fault_at(a: VmAction, e: VmEvent) -> VmFault {
    match a {
        VmAction::SetupTap(i) => VmFault::Tap(i),
        VmAction::Spawn => VmFault::Spawn,
        VmAction::AwaitSocket => VmFault::Socket,
        VmAction::Call(i) => VmFault::Call(i),
        VmAction::AwaitReady => VmFault::Ready,
        _ => if e == VmEvent::TimedOut {
            VmFault::Timeout
        } else {
            VmFault::Exit
        },
    }
}

/// What is taken down, in order, after action `a` failed as `e` says: nothing
/// where firecracker does not run yet; else the process is killed, its scope
/// stopped if it has one, and socket and TAP go. A build whose end could not
/// be waited for is not killed.
pub open spec fn undoing(a: VmAction, e: VmEvent, scoped: bool) -> Seq<VmAction> {
    if a is SetupTap || a == VmAction::Spawn {
        Seq::empty()
    } else if a == VmAction::AwaitExit && e == VmEvent::Failed {
        seq![VmAction::RemoveSocket, VmAction::DeleteTap]
    } else if scoped {
        seq![VmAction::KillChild, VmAction::StopScope, VmAction::RemoveSocket, VmAction::DeleteTap]
    } else {
        seq![VmAction::KillChild, VmAction::RemoveSocket, VmAction::DeleteTap]
    }
}

/// The first action that fails though it must not is the run's fault for good;
/// it is followed by what is taken down, each thing in its turn, and then by
/// nothing. Whether taking down succeeds does not matter.
pub proof fn law_failed_run_is_undone(kind: VmKind, calls: usize, scoped: bool, events: Seq<VmEvent>, n: int)
    requires
        0 <= n < events.len(),
        goes_well(kind, calls, events, n),
        events[n] != VmEvent::Done,
        !may_fail(script(kind, calls, n)),
    ensures
        ({
            let s = run_all(run_start(kind, calls, scoped), events);
            let undone = undoing(script(kind, calls, n), events[n], scoped);
            let k = events.len() - n - 1;
            &&& s.fault == Some(fault_at(script(kind, calls, n), events[n]))
            &&& s.next == if k < undone.len() {
                undone[k]
            } else {
                VmAction::Stop
            }
        }),
    decreases events.len(),
{
    let head = events.drop_last();
    let start = run_start(kind, calls, scoped);
    law_run_inv(kind, calls, scoped, head);
    if events.len() == n + 1 {
        assert forall|i: int| 0 <= i < head.len() implies #[trigger] head[i] == VmEvent::Done || may_fail(script(kind, calls, i)) by {
            assert(events[i] == head[i]);
        }
        law_run_goes_by_the_script(kind, calls, scoped, head);
    } else {
        assert forall|i: int| 0 <= i < n implies #[trigger] head[i] == VmEvent::Done || may_fail(script(kind, calls, i)) by {
            assert(events[i] == head[i]);
        }
        assert(head[n] == events[n]);
        law_failed_run_is_undone(kind, calls, scoped, head, n);
    }
}

/// The calls in front of call `i` were made and succeeded, one right behind
/// the other, whenever a run comes to call `i`.
proof fn earlier_calls_made(kind: VmKind, calls: usize, scoped: bool, events: Seq<VmEvent>, i: usize)
    requires
        run_all(run_start(kind, calls, scoped), events).next == VmAction::Call(i),
    ensures
        i <= events.len(),
        forall|j: int| 0 <= j < i ==> #[trigger] did(kind, calls, scoped, events, events.len() - i + j, VmAction::Call(j as usize)),
    decreases events.len(),
{
    assert(events.len() > 0);
    let n = events.len() as int;
    let head = events.drop_last();
    assert(events.take(n) =~= events);
    assert(events.take(n - 1) =~= head);
    run_at_next(kind, calls, scoped, events, n - 1);
    if i > 0 {
        let before = run_at(kind, calls, scoped, events, n - 1);
        law_run_inv(kind, calls, scoped, head);
        assert(before.next == VmAction::Call((i - 1) as usize) && events[n - 1] == VmEvent::Done);
        earlier_calls_made(kind, calls, scoped, head, (i - 1) as usize);
        assert forall|j: int| 0 <= j < i implies #[trigger] did(kind, calls, scoped, events, n - i + j, VmAction::Call(j as usize)) by {
            if j < i - 1 {
                assert(did(kind, calls, scoped, head, head.len() - (i - 1) + j, VmAction::Call(j as usize)));
                assert(head.take(n - i + j) =~= events.take(n - i + j));
            }
        }
    }
}

/// A run that awaits the app or the end of a build, or that is over without a
/// fault, has made every one of its API calls, each with success, in their
/// order and one right behind the other.
pub proof fn law_every_call_is_made(kind: VmKind, calls: usize, scoped: bool, events: Seq<VmEvent>)
    requires
        ({
            let s = run_all(run_start(kind, calls, scoped), events);
            s.next == VmAction::AwaitReady || s.next == VmAction::AwaitExit || (s.next == VmAction::Stop && s.fault is None)
        }),
    ensures
        exists|from: int| #[trigger] calls_made_from(kind, calls, scoped, events, from),
    decreases events.len(), 1int,
{
    assert(events.len() > 0);
    let n = events.len() as int;
    let head = events.drop_last();
    assert(events.take(n) =~= events);
    assert(events.take(n - 1) =~= head);
    run_at_next(kind, calls, scoped, events, n - 1);
    law_run_inv(kind, calls, scoped, head);
    law_run_inv(kind, calls, scoped, events);
    let before = run_all(run_start(kind, calls, scoped), head);
    let s = run_all(run_start(kind, calls, scoped), events);
    if s.next != VmAction::Stop {
        if calls == 0 {
            assert(calls_made_from(kind, calls, scoped, events, n));
        } else {
            assert(before.next == VmAction::Call((calls - 1) as usize) && events[n - 1] == VmEvent::Done);
            earlier_calls_made(kind, calls, scoped, head, (calls - 1) as usize);
            assert forall|j: int| 0 <= j < calls implies #[trigger] did(
                kind,
                calls,
                scoped,
                events,
                n - calls + j,
                VmAction::Call(j as usize),
            ) by {
                if j < calls - 1 {
                    assert(did(kind, calls, scoped, head, head.len() - (calls - 1) + j, VmAction::Call(j as usize)));
                    assert(head.take(n - calls + j) =~= events.take(n - calls + j));
                }
            }
            assert(calls_made_from(kind, calls, scoped, events, n - calls));
        }
    } else {
        faultless_made(kind, calls, scoped, events);
    }
}

/// Were the calls made from action number `from` on?
pub open spec fn calls_made_from(kind: VmKind, calls: usize, scoped: bool, events: Seq<VmEvent>, from: int) -> bool {
    forall|j: int| 0 <= j < calls ==> #[trigger] did(kind, calls, scoped, events, from + j, VmAction::Call(j as usize))
}

/// Calls that were made stay made.
proof fn made_stays(kind: VmKind, calls: usize, scoped: bool, events: Seq<VmEvent>, from: int)
    requires
        events.len() > 0,
        calls_made_from(kind, calls, scoped, events.drop_last(), from),
    ensures
        calls_made_from(kind, calls, scoped, events, from),
{
    let head = events.drop_last();
    assert forall|j: int| 0 <= j < calls implies #[trigger] did(kind, calls, scoped, events, from + j, VmAction::Call(j as usize)) by {
        assert(did(kind, calls, scoped, head, from + j, VmAction::Call(j as usize)));
        assert(head.take(from + j) =~= events.take(from + j));
    }
}

/// A run without a fault that is past its calls has made them.
proof fn faultless_made(kind: VmKind, calls: usize, scoped: bool, events: Seq<VmEvent>)
    requires
        ({
            let s = run_all(run_start(kind, calls, scoped), events);
            s.fault is None && (s.next == VmAction::Stop || s.next == VmAction::RemoveSocket || s.next == VmAction::DeleteTap)
        }),
    ensures
        exists|from: int| #[trigger] calls_made_from(kind, calls, scoped, events, from),
    decreases events.len(), 0int,
{
    assert(events.len() > 0);
    let head = events.drop_last();
    law_run_inv(kind, calls, scoped, head);
    let before = run_all(run_start(kind, calls, scoped), head);
    if before.next == VmAction::AwaitReady || before.next == VmAction::AwaitExit {
        law_every_call_is_made(kind, calls, scoped, head);
    } else {
        faultless_made(kind, calls, scoped, head);
    }
    let from = choose|from: int| #[trigger] calls_made_from(kind, calls, scoped, head, from);
    made_stays(kind, calls, scoped, events, from);
}

} // verus!
