//! Which guest port a launch probes for readiness and proxies to.
use vstd::prelude::*;
use crate::config::FcConfig;
use crate::ipv4::{ipv4_text, ipv4_to_text};
use crate::manifest::Runtime;
use crate::number::{decimal, push_decimal};
use crate::order::{ports_sorted, ports_text, push_ports, sort_ports};

verus! {

/// How the guest port of a launch is found.
#[derive(Debug, Clone, PartialEq, Eq)]
pub enum PortPlan {
    /// The port is known.
    Fixed(u16),
    /// Several ports are exposed: all are probed, and the first that answers is it.
    Probe(Vec<u16>),
}

/// Is `p` the plan that fixes `port`?
pub open spec fn is_fixed(p: PortPlan, port: u16) -> bool {
    p matches PortPlan::Fixed(q) && q == port
}

/// Decides how the guest port is found. A workspace has the configured port;
/// else the manifest's port wins; else the ports that the image exposes, the
/// one or all to be probed; else the port noted by an earlier launch; else
/// the configured one.
pub fn resolve_port_plan(is_workspace: bool, rt: &Runtime, exposed: &[u16], persisted: Option<u16>, cfg: &FcConfig) -> (r: PortPlan)
    ensures
        if is_workspace {
            is_fixed(r, cfg.app_port)
        } else if rt.port is Some {
            is_fixed(r, rt.port->Some_0)
        } else if exposed@.len() == 1 {
            is_fixed(r, exposed@[0])
        } else if exposed@.len() >= 2 {
            r matches PortPlan::Probe(all) && all@ == exposed@
        } else if persisted is Some {
            is_fixed(r, persisted->Some_0)
        } else {
            is_fixed(r, cfg.app_port)
        },
{
    if is_workspace {
        return PortPlan::Fixed(cfg.app_port);
    }
    match rt.port {
        Some(p) => return PortPlan::Fixed(p),
        None => {},
    }
    if exposed.len() == 1 {
        return PortPlan::Fixed(exposed[0]);
    }
    if exposed.len() >= 2 {
        return PortPlan::Probe(vstd::slice::slice_to_vec(exposed));
    }
    match persisted {
        Some(p) => PortPlan::Fixed(p),
        None => PortPlan::Fixed(cfg.app_port),
    }
}

/// How one polled port ended.
#[derive(Debug, Clone, Copy, PartialEq, Eq, Structural)]
pub enum ProbeEvent {
    /// Its server answered.
    Answered(u16),
    /// It did not answer within the budget.
    Exhausted(u16),
    /// Its poller was lost.
    Lost,
}

/// A probe of several ports that is under way.
#[derive(Debug)]
pub struct PortProbe {
    /// Pollers that have not ended.
    pub pending: usize,
    /// Ports that did not answer.
    pub failed: Vec<u16>,
}

/// What to do after one poller ended.
#[derive(Debug)]
pub enum ProbeAction {
    /// Wait for the next poller.
    Wait,
    /// The port won: cancel the other pollers.
    Win(u16),
    /// No port answered.
    Fail(String),
}

/// What is said when no port answered.
pub open spec fn no_answer_text(overall_secs: nat, failed: Seq<u16>, host: nat) -> Seq<char> {
    "no exposed port answered within "@ + decimal(overall_secs) + "s: probed "@ + ports_text(failed) + " on "@ + ipv4_text(host)
        + ", none responded. Make the app LISTEN on one of its Dockerfile EXPOSE ports and keep PID 1 in the FOREGROUND (it must not daemonize/exit). If it serves on a DIFFERENT port, set `[runtime].port` in tabbify.toml to that port."@
}

/// Is `msg` what is said of the ports in `failed`, listed in order?
pub open spec fn is_no_answer(msg: Seq<char>, overall_secs: nat, failed: Seq<u16>, host: nat) -> bool {
    exists|q: Seq<u16>| #[trigger]
        ports_sorted(q) && q.to_multiset() == failed.to_multiset() && msg == no_answer_text(overall_secs, q, host)
}

/// The ports that did not answer, after one more poller ended.
pub open spec fn failed_after(failed: Seq<u16>, event: ProbeEvent) -> Seq<u16> {
    match event {
        ProbeEvent::Exhausted(p) => failed.push(p),
        _ => failed,
    }
}

/// What the end of one poller decides while `pending` have not ended: a
/// winner, that nobody won, or nothing yet.
pub open spec fn probe_next(pending: nat, event: ProbeEvent) -> Option<Option<u16>> {
    match event {
        ProbeEvent::Answered(p) => Some(Some(p)),
        _ => if pending > 1 {
            None
        } else {
            Some(None)
        },
    }
}

impl PortProbe {
    /// Starts a probe of the ports; without any there is nothing to probe.
    pub fn new(ports: &[u16]) -> (r: Result<PortProbe, String>)
        ensures
            if ports@.len() == 0 {
                r is Err && r->Err_0@ == "probe_first_answering called with no candidate ports (internal error)"@
            } else {
                r is Ok && r->Ok_0.pending == ports@.len() && r->Ok_0.failed@.len() == 0
            },
    {
        if ports.len() == 0 {
            return Err("probe_first_answering called with no candidate ports (internal error)".to_owned());
        }
        Ok(PortProbe { pending: ports.len(), failed: Vec::new() })
    }

    /// Takes note of how one poller ended. The first answer wins; when the
    /// last poller has ended without one, the probe fails.
    pub fn step(&mut self, event: ProbeEvent, overall_secs: u64, host: u32) -> (r: ProbeAction)
        requires
            old(self).pending > 0,
        ensures
            final(self).pending == old(self).pending - 1,
            final(self).failed@ == failed_after(old(self).failed@, event),
            match probe_next(old(self).pending as nat, event) {
                None => r is Wait,
                Some(Some(p)) => r matches ProbeAction::Win(q) && q == p,
                Some(None) => r matches ProbeAction::Fail(msg) && is_no_answer(
                    msg@,
                    overall_secs as nat,
                    failed_after(old(self).failed@, event),
                    host as nat,
                ),
            },
    {
        self.pending = self.pending - 1;
        match event {
            ProbeEvent::Answered(p) => return ProbeAction::Win(p),
            ProbeEvent::Exhausted(p) => {
                self.failed.push(p);
            },
            ProbeEvent::Lost => {},
        }
        if self.pending > 0 {
            return ProbeAction::Wait;
        }
        let sorted = sort_ports(&self.failed);
        let mut out = "no exposed port answered within ".to_owned();
        push_decimal(&mut out, overall_secs);
        out.append("s: probed ");
        push_ports(&mut out, &sorted);
        out.append(" on ");
        out.append(&ipv4_to_text(host));
        out.append(
            ", none responded. Make the app LISTEN on one of its Dockerfile EXPOSE ports and keep PID 1 in the FOREGROUND (it must not daemonize/exit). If it serves on a DIFFERENT port, set `[runtime].port` in tabbify.toml to that port.",
        );
        assert(ports_sorted(sorted@));
        ProbeAction::Fail(out)
    }
}

/// What a run of ended pollers decides.
pub open spec fn probe_winner(pending: nat, events: Seq<ProbeEvent>) -> Option<Option<u16>>
    decreases events.len(),
{
    if events.len() == 0 {
        None
    } else {
        match probe_next(pending, events[0]) {
            None => probe_winner((pending - 1) as nat, events.skip(1)),
            decided => decided,
        }
    }
}

/// The first poller to end with an answer decides the probe, whatever the
/// others do; and a probe in which all pollers ended without an answer fails.
pub proof fn law_first_answer_wins(pending: nat, events: Seq<ProbeEvent>, k: int, port: u16)
    requires
        0 <= k < events.len(),
        k < pending,
        forall|j: int| 0 <= j < k ==> !(#[trigger] events[j] is Answered),
    ensures
        events[k] == ProbeEvent::Answered(port) ==> probe_winner(pending, events) == Some(Some(port)),
        k + 1 == pending && !(events[k] is Answered) ==> probe_winner(pending, events) == Some(None::<u16>),
    decreases k,
{
    if k > 0 {
        let rest = events.skip(1);
        assert(!(events[0] is Answered));
        assert forall|j: int| 0 <= j < k - 1 implies !(#[trigger] rest[j] is Answered) by {
            assert(rest[j] == events[j + 1]);
        }
        assert(rest[k - 1] == events[k]);
        law_first_answer_wins((pending - 1) as nat, rest, k - 1, port);
    }
}

/// The ports that did not answer, after a run of ended pollers.
pub open spec fn failed_all(events: Seq<ProbeEvent>) -> Seq<u16>
    decreases events.len(),
{
    if events.len() == 0 {
        Seq::empty()
    } else {
        failed_after(failed_all(events.drop_last()), events.last())
    }
}

/// A port is said not to have answered exactly where its poller ran out.
pub proof fn law_failed_ports_are_all_named(events: Seq<ProbeEvent>, port: u16)
    ensures
        failed_all(events).contains(port) <==> events.contains(ProbeEvent::Exhausted(port)),
        failed_all(events).len() <= events.len(),
    decreases events.len(),
{
    if events.len() > 0 {
        let head = events.drop_last();
        let before = failed_all(head);
        let after = failed_all(events);
        law_failed_ports_are_all_named(head, port);
        assert(events.last() == events[events.len() - 1]);
        if head.contains(ProbeEvent::Exhausted(port)) {
            let i = choose|i: int| 0 <= i < head.len() && head[i] == ProbeEvent::Exhausted(port);
            assert(events[i] == head[i]);
            let j = choose|j: int| 0 <= j < before.len() && before[j] == port;
            assert(after[j] == port);
        }
        if events.last() == ProbeEvent::Exhausted(port) {
            assert(after[after.len() - 1] == port);
        }
        if after.contains(port) && !before.contains(port) {
            let j = choose|j: int| 0 <= j < after.len() && after[j] == port;
            if j < before.len() {
                assert(before[j] == after[j]);
            }
        }
        if events.contains(ProbeEvent::Exhausted(port)) && events.last() != ProbeEvent::Exhausted(port) {
            let i = choose|i: int| 0 <= i < events.len() && events[i] == ProbeEvent::Exhausted(port);
            assert(head[i] == events[i]);
        }
    }
}

} // verus!
