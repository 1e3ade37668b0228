//! NAT, egress filters and firewalls of guests.
use tabbify_supervisor::firecracker::egress_filter::{egress_rules, is_literal_host, resolve_hosts, HostAnswer};
use tabbify_supervisor::firecracker::guest_nat::{
    delete_fc_tap, is_enforced, needs_adding, parse_default_dev, parse_default_gateway, setup_guest_nat, setup_tap,
    teardown_guest_nat, NatStep,
};
use tabbify_supervisor::firecracker::proxy_firewall::{
    firewall_step, next_firewall_action, proxy_ipv4_firewall_rules, FirewallAction, FirewallState,
};

#[test]
fn empty_allow_list_yields_no_rules() {
    assert!(egress_rules("tap0", "eth0", &[], &[]).is_empty());
}

#[test]
fn builds_accept_per_ip_plus_catch_all_drop() {
    let rules = egress_rules("tap0", "eth0", &["149.154.167.220".into()], &["10.0.0.1".into()]);
    assert_eq!(rules.len(), 4);
    let last_add = &rules.last().unwrap().1;
    assert!(last_add.contains(&"DROP".to_string()));
    assert!(last_add.contains(&"-A".to_string()));
    assert!(rules
        .iter()
        .any(|(_, add)| add.contains(&"149.154.167.220".to_string()) && add.contains(&"ACCEPT".to_string())));
}

#[test]
fn always_allow_is_accepted_even_without_user_hosts() {
    let rules = egress_rules("tap0", "eth0", &[], &["10.0.0.1".into()]);
    assert!(rules.iter().any(|(_, add)| add.contains(&"10.0.0.1".to_string()) && add.contains(&"ACCEPT".to_string())));
    assert!(rules.last().unwrap().1.contains(&"DROP".to_string()));
}

#[test]
fn resolve_passes_through_ip_literals() {
    let out = resolve_hosts(&[
        HostAnswer { host: "1.2.3.4".into(), is_ip: true, addrs: Vec::new() },
        HostAnswer { host: "10.0.0.0/24".into(), is_ip: false, addrs: Vec::new() },
    ]);
    assert_eq!(out, vec!["1.2.3.4".to_string(), "10.0.0.0/24".to_string()]);
}

#[test]
fn resolved_hosts_are_sorted_and_occur_once() {
    let out = resolve_hosts(&[
        HostAnswer { host: "a.example".into(), is_ip: false, addrs: vec!["9.9.9.9".into(), "1.1.1.1".into()] },
        HostAnswer { host: "b.example".into(), is_ip: false, addrs: vec!["1.1.1.1".into()] },
        HostAnswer { host: "gone.example".into(), is_ip: false, addrs: Vec::new() },
    ]);
    assert_eq!(out, vec!["1.1.1.1".to_string(), "9.9.9.9".to_string()]);
    assert!(is_literal_host("10.0.0.0/24", false) && !is_literal_host("a.example", false));
}

#[test]
fn rules_carry_subnet_uplink_port_and_positions() {
    let r = proxy_ipv4_firewall_rules("172.31.0.0/16", "wlan0", "8789");
    assert_eq!(
        r.accept_add,
        vec!["-I", "INPUT", "1", "-s", "172.31.0.0/16", "-p", "tcp", "--dport", "8789", "-j", "ACCEPT"],
        "ACCEPT must be at position 1 (before the DROP), keyed on the tap subnet + port",
    );
    assert_eq!(
        r.drop_add,
        vec!["-I", "INPUT", "2", "-i", "wlan0", "-p", "tcp", "--dport", "8789", "-j", "DROP"],
        "DROP must be at position 2 (after the ACCEPT), keyed on the uplink iface + port",
    );
    assert_eq!(r.accept_check[0], "-C");
    assert!(r.accept_check.contains(&"172.31.0.0/16"));
    assert!(r.accept_check.contains(&"8789"));
    assert_eq!(r.drop_check[0], "-C");
    assert!(r.drop_check.contains(&"wlan0"));
    assert!(r.drop_check.contains(&"8789"));
}

#[test]
fn port_threads_through_for_both_proxies() {
    let git = proxy_ipv4_firewall_rules("172.31.0.0/16", "eth0", "8788");
    assert!(git.accept_add.contains(&"8788"));
    assert!(git.drop_add.contains(&"8788"));
    let forge = proxy_ipv4_firewall_rules("172.31.0.0/16", "eth0", "8789");
    assert!(forge.accept_add.contains(&"8789"));
    assert!(forge.drop_add.contains(&"8789"));
}

#[test]
fn a_drop_is_only_put_behind_an_accept() {
    assert_eq!(next_firewall_action(FirewallState::Start, true), FirewallAction::EnsureAccept);
    let failed = firewall_step(FirewallState::Start, false);
    assert_eq!(next_firewall_action(failed, true), FirewallAction::Stop);
    let held = firewall_step(FirewallState::Start, true);
    assert_eq!(next_firewall_action(held, true), FirewallAction::EnsureDrop);
    assert_eq!(next_firewall_action(held, false), FirewallAction::Stop);
    assert_eq!(next_firewall_action(firewall_step(held, true), true), FirewallAction::Stop);
}

#[test]
fn parse_default_dev_extracts_iface() {
    assert_eq!(
        parse_default_dev("default via 10.0.0.1 dev eth0 proto dhcp src 10.0.0.5 metric 100"),
        Some("eth0".to_owned())
    );
    assert_eq!(parse_default_dev("default via 192.168.1.1 dev wlan0\n"), Some("wlan0".to_owned()));
}

#[test]
fn parse_default_dev_none_when_no_route_or_dev() {
    assert_eq!(parse_default_dev(""), None);
    assert_eq!(parse_default_dev("blackhole 10.0.0.0/8"), None);
    assert_eq!(parse_default_dev("default via 10.0.0.1 dev"), None);
}

#[test]
fn parses_default_gateway_via() {
    assert_eq!(parse_default_gateway("default via 10.0.0.1 dev eth0 proto dhcp"), Some("10.0.0.1".to_owned()));
    assert_eq!(parse_default_gateway("default via 192.168.1.1 dev wlan0\n"), Some("192.168.1.1".to_owned()));
}

#[test]
fn parse_default_gateway_none_when_no_via() {
    assert_eq!(parse_default_gateway("default dev wg0 scope link"), None);
    assert_eq!(parse_default_gateway(""), None);
    assert_eq!(parse_default_gateway("default via"), None);
}

fn ensured(steps: &[NatStep]) -> Vec<Vec<String>> {
    steps
        .iter()
        .filter_map(|s| match s {
            NatStep::Ensure((_, add)) => Some(add.clone()),
            _ => None,
        })
        .collect()
}

#[test]
fn guests_get_their_way_out() {
    {
        let allow = vec!["api.example".to_owned()];
        assert!(is_enforced(Some(&allow)));
        assert!(!is_enforced(None));
        let steps = setup_guest_nat("fc-a", "172.31.0.0/16", Some("eth0"), Some(&allow), &["1.2.3.4".to_owned()], Some("10.0.0.1"));
        assert!(matches!(steps[0], NatStep::EnableForwarding));
        let adds = ensured(&steps);
        assert!(adds[0].contains(&"MASQUERADE".to_owned()));
        assert!(adds.last().unwrap().contains(&"DROP".to_owned()));
        assert!(steps.iter().any(|s| matches!(s, NatStep::Delete(_))));
    }
    {
        let steps = setup_guest_nat("fc-a", "172.31.0.0/16", Some("eth0"), None, &[], None);
        let adds = ensured(&steps);
        assert!(adds[0].contains(&"MASQUERADE".to_owned()));
        assert!(!adds.iter().any(|a| a.contains(&"DROP".to_owned())));
        let none = setup_guest_nat("fc-a", "172.31.0.0/16", None, None, &[], None);
        assert_eq!(none.len(), 1);
    }
}


#[test]
fn rules_and_taps_are_made() {
    {
        assert!(!needs_adding(Some(true)));
        assert!(needs_adding(Some(false)));
        assert!(needs_adding(None));
    }
    {
        let [add, addr, up] = setup_tap("fc-a", 0xAC1F_0001);
        assert_eq!(add, vec!["tuntap", "add", "fc-a", "mode", "tap"]);
        assert_eq!(addr, vec!["addr", "add", "172.31.0.1/30", "dev", "fc-a"]);
        assert_eq!(up, vec!["link", "set", "fc-a", "up"]);
        assert!(delete_fc_tap("fc-a").contains(&"fc-a".to_owned()));
        let (out, back) = teardown_guest_nat("fc-a", "eth0");
        assert_eq!(out, vec!["-D", "FORWARD", "-i", "fc-a", "-o", "eth0", "-j", "ACCEPT"]);
        assert_eq!(
            back,
            vec!["-D", "FORWARD", "-i", "eth0", "-o", "fc-a", "-m", "state", "--state", "RELATED,ESTABLISHED", "-j", "ACCEPT"]
        );
    }
}

