//! Firewall rules for the proxies that guests reach on the host.
use vstd::prelude::*;
use crate::text::strs;

verus! {

/// The argument lists of the two rules that guard a proxy port.
#[derive(Debug)]
pub struct ProxyFirewallRules<'a> {
    /// Checks for the accept from the tap subnet.
    pub accept_check: Vec<&'a str>,
    /// Adds the accept from the tap subnet, first in the chain.
    pub accept_add: Vec<&'a str>,
    /// Checks for the drop on the uplink.
    pub drop_check: Vec<&'a str>,
    /// Adds the drop on the uplink, second in the chain.
    pub drop_add: Vec<&'a str>,
}

/// The two rules that guard the proxy port `port_str`: accept from
/// `tap_subnet`, drop on `uplink`.
pub fn proxy_ipv4_firewall_rules<'a>(tap_subnet: &'a str, uplink: &'a str, port_str: &'a str) -> (r: ProxyFirewallRules<'a>)
    ensures
        strs(r.accept_check@) == seq!["-C"@, "INPUT"@, "-s"@, tap_subnet@, "-p"@, "tcp"@, "--dport"@, port_str@, "-j"@, "ACCEPT"@],
        strs(r.accept_add@) == seq![
            "-I"@,
            "INPUT"@,
            "1"@,
            "-s"@,
            tap_subnet@,
            "-p"@,
            "tcp"@,
            "--dport"@,
            port_str@,
            "-j"@,
            "ACCEPT"@,
        ],
        strs(r.drop_check@) == seq!["-C"@, "INPUT"@, "-i"@, uplink@, "-p"@, "tcp"@, "--dport"@, port_str@, "-j"@, "DROP"@],
        strs(r.drop_add@) == seq![
            "-I"@,
            "INPUT"@,
            "2"@,
            "-i"@,
            uplink@,
            "-p"@,
            "tcp"@,
            "--dport"@,
            port_str@,
            "-j"@,
            "DROP"@,
        ],
{
    let accept_check: Vec<&'a str> = vec!["-C", "INPUT", "-s", tap_subnet, "-p", "tcp", "--dport", port_str, "-j", "ACCEPT"];
    let accept_add: Vec<&'a str> = vec!["-I", "INPUT", "1", "-s", tap_subnet, "-p", "tcp", "--dport", port_str, "-j", "ACCEPT"];
    let drop_check: Vec<&'a str> = vec!["-C", "INPUT", "-i", uplink, "-p", "tcp", "--dport", port_str, "-j", "DROP"];
    let drop_add: Vec<&'a str> = vec!["-I", "INPUT", "2", "-i", uplink, "-p", "tcp", "--dport", port_str, "-j", "DROP"];
    assert(strs(accept_check@) =~= seq![
        "-C"@,
        "INPUT"@,
        "-s"@,
        tap_subnet@,
        "-p"@,
        "tcp"@,
        "--dport"@,
        port_str@,
        "-j"@,
        "ACCEPT"@,
    ]);
    assert(strs(accept_add@) =~= seq![
        "-I"@,
        "INPUT"@,
        "1"@,
        "-s"@,
        tap_subnet@,
        "-p"@,
        "tcp"@,
        "--dport"@,
        port_str@,
        "-j"@,
        "ACCEPT"@,
    ]);
    assert(strs(drop_check@) =~= seq!["-C"@, "INPUT"@, "-i"@, uplink@, "-p"@, "tcp"@, "--dport"@, port_str@, "-j"@, "DROP"@]);
    assert(strs(drop_add@) =~= seq![
        "-I"@,
        "INPUT"@,
        "2"@,
        "-i"@,
        uplink@,
        "-p"@,
        "tcp"@,
        "--dport"@,
        port_str@,
        "-j"@,
        "DROP"@,
    ]);
    ProxyFirewallRules { accept_check, accept_add, drop_check, drop_add }
}

/// What the firewall of a proxy has come to.
#[derive(Debug, Clone, Copy, PartialEq, Eq, Structural)]
pub enum FirewallState {
    /// Nothing is installed yet.
    Start,
    /// The accept was tried; the flag says whether it is in place.
    AcceptTried(bool),
    /// Nothing more is to be done.
    Finished,
}

/// What to do next for the firewall of a proxy.
#[derive(Debug, Clone, Copy, PartialEq, Eq, Structural)]
pub enum FirewallAction {
    /// See to it that the accept from the tap subnet is in place.
    EnsureAccept,
    /// See to it that the drop on the uplink is in place.
    EnsureDrop,
    /// Nothing.
    Stop,
}

/// What to do next for the firewall of a proxy. The drop is installed only
/// where there is an uplink and the accept is already in place: a drop
/// without the accept in front of it would cut the guests off.
pub open spec fn firewall_next(state: FirewallState, has_uplink: bool) -> FirewallAction {
    match state {
        FirewallState::Start => FirewallAction::EnsureAccept,
        FirewallState::AcceptTried(ok) => if ok && has_uplink {
            FirewallAction::EnsureDrop
        } else {
            FirewallAction::Stop
        },
        FirewallState::Finished => FirewallAction::Stop,
    }
}

/// What to do next for the firewall of a proxy.
pub fn next_firewall_action(state: FirewallState, has_uplink: bool) -> (r: FirewallAction)
    ensures
        r == firewall_next(state, has_uplink),
{
    match state {
        FirewallState::Start => FirewallAction::EnsureAccept,
        FirewallState::AcceptTried(ok) => if ok && has_uplink {
            FirewallAction::EnsureDrop
        } else {
            FirewallAction::Stop
        },
        FirewallState::Finished => FirewallAction::Stop,
    }
}

/// What the firewall has come to after an action: `ok` says whether its rule
/// is in place.
pub open spec fn firewall_after(state: FirewallState, ok: bool) -> FirewallState {
    match state {
        FirewallState::Start => FirewallState::AcceptTried(ok),
        _ => FirewallState::Finished,
    }
}

/// What the firewall has come to after an action.
pub fn firewall_step(state: FirewallState, ok: bool) -> (r: FirewallState)
    ensures
        r == firewall_after(state, ok),
{
    match state {
        FirewallState::Start => FirewallState::AcceptTried(ok),
        _ => FirewallState::Finished,
    }
}

/// The drop is only ever asked for after the accept succeeded, and only where
/// there is an uplink; and after it nothing more is asked for.
pub proof fn law_drop_only_behind_accept(accept_ok: bool, drop_ok: bool, has_uplink: bool)
    ensures
        firewall_next(FirewallState::Start, has_uplink) == FirewallAction::EnsureAccept,
        firewall_next(firewall_after(FirewallState::Start, accept_ok), has_uplink) == FirewallAction::EnsureDrop <==> accept_ok
            && has_uplink,
        firewall_next(firewall_after(firewall_after(FirewallState::Start, accept_ok), drop_ok), has_uplink)
            == FirewallAction::Stop,
{
}

} // verus!
