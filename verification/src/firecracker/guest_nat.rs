//! The way out of a guest: routes of the host, address translation, and the
//! forward rules of a TAP.
use vstd::prelude::*;
use crate::firecracker::egress_filter::{
    adding, drop_rule, egress, egress_rules, established_rule, filtered, is_blanket_accept, law_egress_deny_by_default, make_established, rule_texts,
    rules_texts, IptablesRule,
};
use crate::firecracker::packet_filter::{
    asks_for, between_matches, chain_after, chain_after_all, fate, leaving_matches, passes, passes_on, replies_match, without_first,
    words_differ, Packet,
};
use crate::ipv4::{ipv4_text, ipv4_to_text};
use crate::text::{opt_str, opt_text, strs, svec, texts};
use crate::words::{find_after, split_words, word_after, words};

verus! {

/// The interface of the default route, out of `ip route show default`.
pub fn parse_default_dev(route_output: &str) -> (r: Option<String>)
    ensures
        opt_text(r) == word_after(words(route_output@), "dev"@),
{
    let toks = split_words(route_output);
    find_after(&toks, "dev")
}

/// The gateway of the default route, out of `ip route show default`.
pub fn parse_default_gateway(route_output: &str) -> (r: Option<String>)
    ensures
        opt_text(r) == word_after(words(route_output@), "via"@),
{
    let toks = split_words(route_output);
    find_after(&toks, "via")
}

/// One thing to do for the way out of a guest.
#[derive(Debug)]
pub enum NatStep {
    /// Switch IPv4 forwarding on.
    EnableForwarding,
    /// Check for a rule, and add it where it is missing.
    Ensure(IptablesRule),
    /// Delete a rule, if it is there.
    Delete(Vec<String>),
}

/// A `NatStep` as texts.
pub enum NatStepModel {
    EnableForwarding,
    Ensure((Seq<Seq<char>>, Seq<Seq<char>>)),
    Delete(Seq<Seq<char>>),
}

impl View for NatStep {
    type V = NatStepModel;

    open spec fn view(&self) -> NatStepModel {
        match self {
            NatStep::EnableForwarding => NatStepModel::EnableForwarding,
            NatStep::Ensure(r) => NatStepModel::Ensure(rule_texts(*r)),
            NatStep::Delete(d) => NatStepModel::Delete(texts(d@)),
        }
    }
}

/// A list of steps as texts.
pub open spec fn steps_view(v: Seq<NatStep>) -> Seq<NatStepModel> {
    Seq::new(v.len(), |i: int| v[i]@)
}

/// The rule that translates the addresses of the tap subnet.
pub open spec fn masquerade_rule(subnet: Seq<char>, uplink: Seq<char>) -> (Seq<Seq<char>>, Seq<Seq<char>>) {
    (
        seq!["-t"@, "nat"@, "-C"@, "POSTROUTING"@, "-s"@, subnet, "-o"@, uplink, "-j"@, "MASQUERADE"@],
        seq!["-t"@, "nat"@, "-A"@, "POSTROUTING"@, "-s"@, subnet, "-o"@, uplink, "-j"@, "MASQUERADE"@],
    )
}

/// The rule that lets a guest reach everything.
pub open spec fn blanket_rule(tap: Seq<char>, uplink: Seq<char>) -> (Seq<Seq<char>>, Seq<Seq<char>>) {
    (
        seq!["-C"@, "FORWARD"@, "-i"@, tap, "-o"@, uplink, "-j"@, "ACCEPT"@],
        seq!["-I"@, "FORWARD"@, "1"@, "-i"@, tap, "-o"@, uplink, "-j"@, "ACCEPT"@],
    )
}

/// The two deletions that take the accepts of a TAP away: the one on the way
/// out, and the one on the way back.
pub open spec fn teardown_args(tap: Seq<char>, uplink: Seq<char>) -> Seq<Seq<Seq<char>>> {
    seq![
        seq!["-D"@, "FORWARD"@, "-i"@, tap, "-o"@, uplink, "-j"@, "ACCEPT"@],
        seq!["-D"@, "FORWARD"@, "-i"@, uplink, "-o"@, tap, "-m"@, "state"@, "--state"@, "RELATED,ESTABLISHED"@, "-j"@, "ACCEPT"@],
    ]
}

/// The arguments that delete a rule: those that check for it, with `-D` in
/// front.
pub open spec fn deletion_of(rule: (Seq<Seq<char>>, Seq<Seq<char>>)) -> Seq<Seq<char>> {
    rule.0.update(0, "-D"@)
}

/// Is an allow-list enforced? Only one that is there and not empty.
pub open spec fn enforced(egress_allow: Option<&[String]>) -> bool {
    egress_allow is Some && egress_allow->Some_0@.len() > 0
}

/// Is an allow-list enforced?
pub fn is_enforced(egress_allow: Option<&[String]>) -> (r: bool)
    ensures
        r == enforced(egress_allow),
        egress_allow is None ==> !r,
        egress_allow is Some && egress_allow->Some_0@.len() == 0 ==> !r,
        egress_allow is Some && egress_allow->Some_0@.len() >= 1 ==> r,
{
    match egress_allow {
        Some(a) => a.len() > 0,
        None => false,
    }
}

/// The rules of a list as steps.
pub open spec fn ensure_all(rules: Seq<(Seq<Seq<char>>, Seq<Seq<char>>)>) -> Seq<NatStepModel> {
    Seq::new(rules.len(), |i: int| NatStepModel::Ensure(rules[i]))
}

/// The steps that the forward rules of a guest take: without an allow-list the
/// guest may reach everything. With one, the accepts that an earlier, open
/// deploy of the TAP left are deleted first, and then the rules of the
/// allow-list follow.
pub open spec fn forward_steps(
    tap: Seq<char>,
    uplink: Seq<char>,
    closed: bool,
    resolved: Seq<Seq<char>>,
    gateway: Option<Seq<char>>,
) -> Seq<NatStepModel> {
    if closed {
        let always = match gateway {
            Some(g) => seq![g],
            None => Seq::empty(),
        };
        seq![
            NatStepModel::Delete(teardown_args(tap, uplink)[0]),
            NatStepModel::Delete(teardown_args(tap, uplink)[1]),
        ] + ensure_all(egress(tap, uplink, resolved, always))
    } else {
        seq![
            NatStepModel::Ensure(blanket_rule(tap, uplink)),
            NatStepModel::Ensure(established_rule(tap, uplink)),
        ]
    }
}

/// What to do for the way out of a guest, in order. Forwarding is switched on
/// first. Without an uplink nothing more can be done; with one, translation
/// comes next, and then the forward rules.
pub open spec fn nat_steps(
    tap: Seq<char>,
    subnet: Seq<char>,
    uplink: Option<Seq<char>>,
    closed: bool,
    resolved: Seq<Seq<char>>,
    gateway: Option<Seq<char>>,
) -> Seq<NatStepModel> {
    match uplink {
        None => seq![NatStepModel::EnableForwarding],
        Some(up) => seq![NatStepModel::EnableForwarding, NatStepModel::Ensure(masquerade_rule(subnet, up))] + forward_steps(
            tap,
            up,
            closed,
            resolved,
            gateway,
        ),
    }
}

/// Adding a step to a list adds its text.
proof fn steps_push(v: Seq<NatStep>, s: NatStep)
    ensures
        steps_view(v.push(s)) == steps_view(v).push(s@),
{
    assert(steps_view(v.push(s)) =~= steps_view(v).push(s@));
}

/// The rule that translates the addresses of the tap subnet.
fn make_masquerade(subnet: &str, uplink: &str) -> (r: IptablesRule)
    ensures
        rule_texts(r) == masquerade_rule(subnet@, uplink@),
{
    let check: [&str; 10] = ["-t", "nat", "-C", "POSTROUTING", "-s", subnet, "-o", uplink, "-j", "MASQUERADE"];
    let add_args: [&str; 10] = ["-t", "nat", "-A", "POSTROUTING", "-s", subnet, "-o", uplink, "-j", "MASQUERADE"];
    assert(strs(check@) =~= masquerade_rule(subnet@, uplink@).0);
    assert(strs(add_args@) =~= masquerade_rule(subnet@, uplink@).1);
    (svec(&check), svec(&add_args))
}

/// The rule that lets a guest reach everything.
fn make_blanket(tap: &str, uplink: &str) -> (r: IptablesRule)
    ensures
        rule_texts(r) == blanket_rule(tap@, uplink@),
{
    let check: [&str; 8] = ["-C", "FORWARD", "-i", tap, "-o", uplink, "-j", "ACCEPT"];
    let add_args: [&str; 9] = ["-I", "FORWARD", "1", "-i", tap, "-o", uplink, "-j", "ACCEPT"];
    assert(strs(check@) =~= blanket_rule(tap@, uplink@).0);
    assert(strs(add_args@) =~= blanket_rule(tap@, uplink@).1);
    (svec(&check), svec(&add_args))
}

/// The two deletions that take the accepts of a TAP away: the one on the way
/// out, and the one on the way back.
pub fn teardown_guest_nat(tap: &str, uplink: &str) -> (r: (Vec<String>, Vec<String>))
    ensures
        texts(r.0@) == teardown_args(tap@, uplink@)[0],
        texts(r.1@) == teardown_args(tap@, uplink@)[1],
{
    let first: [&str; 8] = ["-D", "FORWARD", "-i", tap, "-o", uplink, "-j", "ACCEPT"];
    let second: [&str; 12] = [
        "-D",
        "FORWARD",
        "-i",
        uplink,
        "-o",
        tap,
        "-m",
        "state",
        "--state",
        "RELATED,ESTABLISHED",
        "-j",
        "ACCEPT",
    ];
    assert(strs(first@) =~= teardown_args(tap@, uplink@)[0]);
    assert(strs(second@) =~= teardown_args(tap@, uplink@)[1]);
    (svec(&first), svec(&second))
}

/// What to do for the way out of a guest, in order. `egress_allow` is the
/// allow-list and `resolved` the addresses that it stands for; `gateway` is
/// the host's own way out, which stays open.
pub fn setup_guest_nat(
    tap: &str,
    tap_subnet: &str,
    uplink: Option<&str>,
    egress_allow: Option<&[String]>,
    resolved: &[String],
    gateway: Option<&str>,
) -> (r: Vec<NatStep>)
    ensures
        steps_view(r@) == nat_steps(
            tap@,
            tap_subnet@,
            opt_str(uplink),
            enforced(egress_allow),
            texts(resolved@),
            opt_str(gateway),
        ),
{
    let mut out: Vec<NatStep> = Vec::new();
    proof {
        steps_push(out@, NatStep::EnableForwarding);
    }
    out.push(NatStep::EnableForwarding);
    let up = match uplink {
        Some(u) => u,
        None => {
            assert(steps_view(out@) =~= seq![NatStepModel::EnableForwarding]);
            return out;
        },
    };
    let masq = NatStep::Ensure(make_masquerade(tap_subnet, up));
    proof {
        steps_push(out@, masq);
    }
    out.push(masq);
    assert(steps_view(out@) =~= seq![NatStepModel::EnableForwarding, NatStepModel::Ensure(masquerade_rule(tap_subnet@, up@))]);
    if !is_enforced(egress_allow) {
        let open = NatStep::Ensure(make_blanket(tap, up));
        proof {
            steps_push(out@, open);
        }
        out.push(open);
        let back = NatStep::Ensure(make_established(tap, up));
        proof {
            steps_push(out@, back);
        }
        out.push(back);
        assert(steps_view(out@) =~= nat_steps(tap@, tap_subnet@, Some(up@), false, texts(resolved@), opt_str(gateway)));
        return out;
    }
    let (d0, d1) = teardown_guest_nat(tap, up);
    let s0 = NatStep::Delete(d0);
    proof {
        steps_push(out@, s0);
    }
    out.push(s0);
    let s1 = NatStep::Delete(d1);
    proof {
        steps_push(out@, s1);
    }
    out.push(s1);
    let mut always: Vec<String> = Vec::new();
    match gateway {
        Some(g) => {
            always.push(g.to_owned());
        },
        None => {},
    }
    assert(texts(always@) =~= match opt_str(gateway) {
        Some(g) => seq![g],
        None => Seq::empty(),
    });
    let mut rules = egress_rules(tap, up, resolved, &always);
    let ghost want = rules_texts(rules@);
    let ghost head = steps_view(out@);
    let n: usize = rules.len();
    let mut i: usize = 0;
    proof {
        assert(want.skip(0) =~= want);
        assert(head + ensure_all(want).take(0) =~= head);
    }
    while i < n
        invariant
            i <= n,
            want.len() == n,
            rules@.len() == n - i,
            rules_texts(rules@) == want.skip(i as int),
            steps_view(out@) == head + ensure_all(want).take(i as int),
        decreases n - i,
    {
        let ghost before = rules@;
        let rule = rules.remove(0);
        proof {
            assert(rules_texts(before)[0] == rule_texts(rule));
            assert(want.skip(i as int)[0] == want[i as int]);
            assert forall|k: int| 0 <= k < rules@.len() implies rules_texts(rules@)[k] == want.skip(i + 1)[k] by {
                assert(rules@[k] == before[k + 1]);
                assert(rules_texts(before)[k + 1] == want.skip(i as int)[k + 1]);
            }
            assert(rules_texts(rules@) =~= want.skip(i + 1));
        }
        let step = NatStep::Ensure(rule);
        proof {
            steps_push(out@, step);
            assert(ensure_all(want)[i as int] == step@);
            assert((head + ensure_all(want).take(i as int)).push(step@) =~= head + ensure_all(want).take(i + 1));
        }
        out.push(step);
        i += 1;
    }
    proof {
        assert(ensure_all(want).take(i as int) =~= ensure_all(want));
        assert(steps_view(out@) =~= nat_steps(tap@, tap_subnet@, Some(up@), true, texts(resolved@), opt_str(gateway)));
    }
    out
}

/// Under an enforced allow-list the deletions come before every forward rule,
/// no step puts the blanket accept in place, and, where any host or the
/// gateway is allowed, the last step drops the rest.
pub proof fn law_enforced_nat_closes(
    tap: Seq<char>,
    subnet: Seq<char>,
    uplink: Seq<char>,
    resolved: Seq<Seq<char>>,
    gateway: Option<Seq<char>>,
)
    requires
        resolved.len() > 0 || gateway is Some,
    ensures
        ({
            let steps = nat_steps(tap, subnet, Some(uplink), true, resolved, gateway);
            &&& steps[2] is Delete
            &&& steps[3] is Delete
            &&& steps.last() == NatStepModel::Ensure(drop_rule(tap, uplink))
            &&& forall|i: int| 4 <= i < steps.len() ==> #[trigger] steps[i] is Ensure && steps[i] != NatStepModel::Ensure(
                blanket_rule(tap, uplink),
            )
        }),
{
    let always = match gateway {
        Some(g) => seq![g],
        None => Seq::empty(),
    };
    law_egress_deny_by_default(tap, uplink, resolved, always);
    let rules = egress(tap, uplink, resolved, always);
    let steps = nat_steps(tap, subnet, Some(uplink), true, resolved, gateway);
    assert(steps.len() == 4 + rules.len());
    assert(steps.last() == NatStepModel::Ensure(rules.last()));
    assert forall|i: int| 4 <= i < steps.len() implies #[trigger] steps[i] is Ensure && steps[i] != NatStepModel::Ensure(
        blanket_rule(tap, uplink),
    ) by {
        assert(steps[i] == NatStepModel::Ensure(rules[i - 4]));
        assert(!is_blanket_accept(tap, uplink, rules[i - 4]));
    }
}

/// Taking the accepts of a TAP away undoes what an open guest was given: the
/// deletions are those of the very forward rules that were put in place, one
/// for each, and the shared translation is not among them.
pub proof fn law_teardown_undoes_setup(
    tap: Seq<char>,
    subnet: Seq<char>,
    uplink: Seq<char>,
    resolved: Seq<Seq<char>>,
    gateway: Option<Seq<char>>,
)
    ensures
        ({
            let steps = nat_steps(tap, subnet, Some(uplink), false, resolved, gateway);
            let gone = teardown_args(tap, uplink);
            &&& steps.len() == 2 + gone.len()
            &&& forall|i: int|
                0 <= i < gone.len() ==> (steps[2 + i] matches NatStepModel::Ensure(rule) && #[trigger] gone[i] == deletion_of(rule))
            &&& forall|i: int| 0 <= i < gone.len() ==> #[trigger] gone[i] != deletion_of(masquerade_rule(subnet, uplink))
        }),
{
    let steps = nat_steps(tap, subnet, Some(uplink), false, resolved, gateway);
    let gone = teardown_args(tap, uplink);
    assert(gone[0] =~= deletion_of(blanket_rule(tap, uplink)));
    assert(gone[1] =~= deletion_of(established_rule(tap, uplink)));
    assert(steps[2] == NatStepModel::Ensure(blanket_rule(tap, uplink)));
    assert(steps[3] == NatStepModel::Ensure(established_rule(tap, uplink)));
    assert(deletion_of(masquerade_rule(subnet, uplink)).len() == 10);
}

/// With an uplink, the addresses of the tap subnet are translated whether an
/// allow-list is enforced or not.
pub proof fn law_masquerade_in_both_modes(
    tap: Seq<char>,
    subnet: Seq<char>,
    uplink: Seq<char>,
    closed: bool,
    resolved: Seq<Seq<char>>,
    gateway: Option<Seq<char>>,
)
    ensures
        nat_steps(tap, subnet, Some(uplink), closed, resolved, gateway)[1] == NatStepModel::Ensure(masquerade_rule(subnet, uplink)),
{
}

/// The forward chain after the first `n` steps were done on `chain`.
pub open spec fn forward_chain(chain: Seq<Seq<Seq<char>>>, steps: Seq<NatStepModel>) -> Seq<Seq<Seq<char>>>
    decreases steps.len(),
{
    if steps.len() == 0 {
        chain
    } else {
        let c = forward_chain(chain, steps.drop_last());
        match steps.last() {
            NatStepModel::EnableForwarding => c,
            NatStepModel::Ensure(rule) => chain_after("FORWARD"@, c, rule.1),
            NatStepModel::Delete(args) => chain_after("FORWARD"@, c, args),
        }
    }
}

/// Steps that are done one after the other.
proof fn forward_chain_step(chain: Seq<Seq<Seq<char>>>, steps: Seq<NatStepModel>, k: int)
    requires
        0 < k <= steps.len(),
    ensures
        forward_chain(chain, steps.take(k)) == ({
            let c = forward_chain(chain, steps.take(k - 1));
            match steps[k - 1] {
                NatStepModel::EnableForwarding => c,
                NatStepModel::Ensure(rule) => chain_after("FORWARD"@, c, rule.1),
                NatStepModel::Delete(args) => chain_after("FORWARD"@, c, args),
            }
        }),
{
    assert(steps.take(k).drop_last() =~= steps.take(k - 1));
    assert(steps.take(k).last() == steps[k - 1]);
}

/// The chain of an open guest: replies first, and then all that it sends.
pub open spec fn open_chain(before: Seq<Seq<Seq<char>>>, tap: Seq<char>, uplink: Seq<char>) -> Seq<Seq<Seq<char>>> {
    seq![
        seq!["-i"@, uplink, "-o"@, tap, "-m"@, "state"@, "--state"@, "RELATED,ESTABLISHED"@, "-j"@, "ACCEPT"@],
        seq!["-i"@, tap, "-o"@, uplink, "-j"@, "ACCEPT"@],
    ] + before
}

/// The first two steps do not touch the forward chain.
proof fn opening_steps(before: Seq<Seq<Seq<char>>>, tap: Seq<char>, subnet: Seq<char>, uplink: Seq<char>, closed: bool, resolved: Seq<Seq<char>>, gateway: Option<Seq<char>>)
    ensures
        nat_steps(tap, subnet, Some(uplink), closed, resolved, gateway).len() >= 2,
        forward_chain(before, nat_steps(tap, subnet, Some(uplink), closed, resolved, gateway).take(2)) == before,
{
    words_differ();
    let steps = nat_steps(tap, subnet, Some(uplink), closed, resolved, gateway);
    assert(steps[0] == NatStepModel::EnableForwarding);
    assert(steps[1] == NatStepModel::Ensure(masquerade_rule(subnet, uplink)));
    assert(steps.take(0) =~= Seq::empty());
    forward_chain_step(before, steps, 1);
    forward_chain_step(before, steps, 2);
}

/// The forward chain of an open guest.
proof fn open_steps_chain(before: Seq<Seq<Seq<char>>>, tap: Seq<char>, subnet: Seq<char>, uplink: Seq<char>, resolved: Seq<Seq<char>>, gateway: Option<Seq<char>>)
    ensures
        forward_chain(before, nat_steps(tap, subnet, Some(uplink), false, resolved, gateway)) == open_chain(before, tap, uplink),
{
    words_differ();
    opening_steps(before, tap, subnet, uplink, false, resolved, gateway);
    let steps = nat_steps(tap, subnet, Some(uplink), false, resolved, gateway);
    assert(steps.len() == 4);
    assert(steps[2] == NatStepModel::Ensure(blanket_rule(tap, uplink)));
    assert(steps[3] == NatStepModel::Ensure(established_rule(tap, uplink)));
    forward_chain_step(before, steps, 3);
    forward_chain_step(before, steps, 4);
    assert(steps.take(4) =~= steps);
    let out = seq!["-i"@, tap, "-o"@, uplink, "-j"@, "ACCEPT"@];
    let back = seq!["-i"@, uplink, "-o"@, tap, "-m"@, "state"@, "--state"@, "RELATED,ESTABLISHED"@, "-j"@, "ACCEPT"@];
    assert(blanket_rule(tap, uplink).1.skip(3) =~= out);
    assert(established_rule(tap, uplink).1.skip(3) =~= back);
    assert(forward_chain(before, steps) =~= open_chain(before, tap, uplink));
}

/// What the way out of an open guest is for: all that it sends out is
/// accepted, replies come back in, and these rules touch nothing else.
pub proof fn law_open_guest_reaches_everything(
    before: Seq<Seq<Seq<char>>>,
    tap: Seq<char>,
    subnet: Seq<char>,
    uplink: Seq<char>,
    resolved: Seq<Seq<char>>,
    gateway: Option<Seq<char>>,
    p: Packet,
    covers: spec_fn(Seq<char>, Seq<char>) -> bool,
)
    requires
        passes(before, p, covers),
    ensures
        fate(forward_chain(before, nat_steps(tap, subnet, Some(uplink), false, resolved, gateway)), p, covers) == if (p.in_if == tap
            && p.out_if == uplink) || (p.in_if == uplink && p.out_if == tap && p.reply) {
            Some("ACCEPT"@)
        } else {
            None
        },
{
    open_steps_chain(before, tap, subnet, uplink, resolved, gateway);
    let out = seq!["-i"@, tap, "-o"@, uplink, "-j"@, "ACCEPT"@];
    let back = seq!["-i"@, uplink, "-o"@, tap, "-m"@, "state"@, "--state"@, "RELATED,ESTABLISHED"@, "-j"@, "ACCEPT"@];
    let c = open_chain(before, tap, uplink);
    between_matches(tap, uplink, "ACCEPT"@, p, covers);
    replies_match(uplink, tap, "ACCEPT"@, p, covers);
    assert(c[0] == back);
    assert(c.skip(1) =~= seq![out] + before);
    assert(c.skip(1)[0] == out);
    assert(c.skip(1).skip(1) =~= before);
    reveal_with_fuel(fate, 3);
    passes_on(before, Seq::empty(), p, covers);
    assert(before + Seq::<Seq<Seq<char>>>::empty() =~= before);
}

/// Closing a guest that was open leaves the very chain of one that was closed
/// from the start: nothing that let it out before is left, and it reaches what
/// is listed only.
pub proof fn law_closing_forgets_the_open_guest(
    before: Seq<Seq<Seq<char>>>,
    tap: Seq<char>,
    subnet: Seq<char>,
    uplink: Seq<char>,
    resolved: Seq<Seq<char>>,
    gateway: Seq<char>,
)
    ensures
        forward_chain(
            forward_chain(before, nat_steps(tap, subnet, Some(uplink), false, resolved, Some(gateway))),
            nat_steps(tap, subnet, Some(uplink), true, resolved, Some(gateway)),
        ) == filtered(before, tap, uplink, resolved, seq![gateway]),
{
    words_differ();
    open_steps_chain(before, tap, subnet, uplink, resolved, Some(gateway));
    let c = open_chain(before, tap, uplink);
    opening_steps(c, tap, subnet, uplink, true, resolved, Some(gateway));
    let steps = nat_steps(tap, subnet, Some(uplink), true, resolved, Some(gateway));
    let rules = egress(tap, uplink, resolved, seq![gateway]);
    let out = seq!["-i"@, tap, "-o"@, uplink, "-j"@, "ACCEPT"@];
    let back = seq!["-i"@, uplink, "-o"@, tap, "-m"@, "state"@, "--state"@, "RELATED,ESTABLISHED"@, "-j"@, "ACCEPT"@];
    assert(steps[2] == NatStepModel::Delete(teardown_args(tap, uplink)[0]));
    assert(steps[3] == NatStepModel::Delete(teardown_args(tap, uplink)[1]));
    forward_chain_step(c, steps, 3);
    forward_chain_step(c, steps, 4);
    assert(teardown_args(tap, uplink)[0].skip(2) =~= out);
    assert(teardown_args(tap, uplink)[1].skip(2) =~= back);
    assert(back.len() == 10 && out.len() == 6);
    reveal_with_fuel(without_first, 3);
    assert(c[0] == back);
    assert(c.skip(1) =~= seq![out] + before);
    assert(c.skip(1)[0] == out);
    assert(c.skip(1).skip(1) =~= before);
    let c1 = seq![back] + before;
    assert(without_first(c, out) =~= c1);
    assert(c1[0] == back && c1.skip(1) =~= before);
    assert(forward_chain(c, steps.take(4)) == before);
    filtering_steps(c, steps, before, rules, rules.len() as int);
    assert(steps.take(4 + rules.len() as int) =~= steps);
    assert(adding(rules).take(rules.len() as int) =~= adding(rules));
}

/// The steps behind the deletions add the rules one after the other.
proof fn filtering_steps(
    c: Seq<Seq<Seq<char>>>,
    steps: Seq<NatStepModel>,
    before: Seq<Seq<Seq<char>>>,
    rules: Seq<(Seq<Seq<char>>, Seq<Seq<char>>)>,
    k: int,
)
    requires
        0 <= k <= rules.len(),
        steps.len() == 4 + rules.len(),
        forall|i: int| 0 <= i < rules.len() ==> #[trigger] steps[4 + i] == NatStepModel::Ensure(rules[i]),
        forward_chain(c, steps.take(4)) == before,
    ensures
        forward_chain(c, steps.take(4 + k)) == chain_after_all("FORWARD"@, before, adding(rules).take(k)),
    decreases k,
{
    if k == 0 {
        assert(adding(rules).take(0) =~= Seq::empty());
    } else {
        filtering_steps(c, steps, before, rules, k - 1);
        forward_chain_step(c, steps, 4 + k);
        assert(steps[4 + (k - 1)] == NatStepModel::Ensure(rules[k - 1]));
        assert(adding(rules).take(k).drop_last() =~= adding(rules).take(k - 1));
        assert(adding(rules).take(k).last() == rules[k - 1].1);
    }
}

/// What the translation is for: whatever comes from the tap subnet and leaves
/// by the uplink gets the host's address, and nothing else does.
pub proof fn law_guests_are_translated(subnet: Seq<char>, uplink: Seq<char>, p: Packet, covers: spec_fn(Seq<char>, Seq<char>) -> bool)
    ensures
        ({
            let (check, add) = masquerade_rule(subnet, uplink);
            let chain = chain_after("POSTROUTING"@, Seq::empty(), add.skip(2));
            &&& check.take(2) == seq!["-t"@, "nat"@] && add.take(2) == seq!["-t"@, "nat"@]
            &&& asks_for("POSTROUTING"@, check.skip(2), add.skip(2))
            &&& fate(chain, p, covers) == if covers(subnet, p.src) && p.out_if == uplink {
                Some("MASQUERADE"@)
            } else {
                None
            }
        }),
{
    words_differ();
    let (check, add) = masquerade_rule(subnet, uplink);
    let o = seq!["-s"@, subnet, "-o"@, uplink, "-j"@, "MASQUERADE"@];
    let chain = chain_after("POSTROUTING"@, Seq::empty(), add.skip(2));
    assert(check.take(2) =~= seq!["-t"@, "nat"@] && add.take(2) =~= seq!["-t"@, "nat"@]);
    assert(add.skip(2).skip(2) =~= o);
    assert(check.skip(2).skip(2) =~= o);
    assert(chain =~= seq![o]);
    assert(chain.skip(1) =~= Seq::empty());
    leaving_matches(subnet, uplink, "MASQUERADE"@, p, covers);
    reveal_with_fuel(fate, 3);
}

/// The rules of an open guest are asked for before they are added.
pub proof fn law_open_rules_are_asked_for(tap: Seq<char>, uplink: Seq<char>)
    ensures
        asks_for("FORWARD"@, blanket_rule(tap, uplink).0, blanket_rule(tap, uplink).1),
        asks_for("FORWARD"@, established_rule(tap, uplink).0, established_rule(tap, uplink).1),
{
    assert(blanket_rule(tap, uplink).0.skip(2) =~= blanket_rule(tap, uplink).1.skip(3));
    assert(established_rule(tap, uplink).0.skip(2) =~= established_rule(tap, uplink).1.skip(3));
}

/// Forwarding is switched on before anything else, with or without an uplink,
/// and without one nothing else is done.
pub proof fn law_forwarding_comes_first(
    tap: Seq<char>,
    subnet: Seq<char>,
    uplink: Option<Seq<char>>,
    closed: bool,
    resolved: Seq<Seq<char>>,
    gateway: Option<Seq<char>>,
)
    ensures
        nat_steps(tap, subnet, uplink, closed, resolved, gateway).first() == NatStepModel::EnableForwarding,
        uplink is None ==> nat_steps(tap, subnet, uplink, closed, resolved, gateway).len() == 1,
{
}

/// What is left to do for a rule once its check has been run.
pub fn needs_adding(check_succeeded: Option<bool>) -> (r: bool)
    ensures
        r == (check_succeeded != Some(true)),
{
    match check_succeeded {
        Some(ok) => !ok,
        None => true,
    }
}

/// The three commands that make a TAP with the host's end of its link.
pub open spec fn tap_commands(tap: Seq<char>, host_ip: nat) -> Seq<Seq<Seq<char>>> {
    seq![
        seq!["tuntap"@, "add"@, tap, "mode"@, "tap"@],
        seq!["addr"@, "add"@, ipv4_text(host_ip) + "/30"@, "dev"@, tap],
        seq!["link"@, "set"@, tap, "up"@],
    ]
}

/// The three commands that make a TAP with the host's end of its link, in
/// order.
pub fn setup_tap(tap_name: &str, host_ip: u32) -> (r: [Vec<String>; 3])
    ensures
        texts(r@[0]@) == tap_commands(tap_name@, host_ip as nat)[0],
        texts(r@[1]@) == tap_commands(tap_name@, host_ip as nat)[1],
        texts(r@[2]@) == tap_commands(tap_name@, host_ip as nat)[2],
{
    let mut addr: String = ipv4_to_text(host_ip);
    addr.append("/30");
    let c0: [&str; 5] = ["tuntap", "add", tap_name, "mode", "tap"];
    let c1: [&str; 5] = ["addr", "add", &addr, "dev", tap_name];
    let c2: [&str; 4] = ["link", "set", tap_name, "up"];
    assert(strs(c0@) =~= tap_commands(tap_name@, host_ip as nat)[0]);
    assert(strs(c1@) =~= tap_commands(tap_name@, host_ip as nat)[1]);
    assert(strs(c2@) =~= tap_commands(tap_name@, host_ip as nat)[2]);
    [svec(&c0), svec(&c1), svec(&c2)]
}

/// The command that deletes a TAP.
pub fn delete_fc_tap(tap: &str) -> (r: Vec<String>)
    ensures
        texts(r@) == seq!["link"@, "del"@, tap@],
{
    let c: [&str; 3] = ["link", "del", tap];
    assert(strs(c@) =~= seq!["link"@, "del"@, tap@]);
    svec(&c)
}

} // verus!
