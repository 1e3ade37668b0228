//! Firewall rules for a guest that may reach an allow-list only.
use vstd::prelude::*;
use crate::firecracker::packet_filter::{
    asks_for, between_matches, chain_after_all, fate, matches_packet, passes, passes_on, replies_match, stops_at, towards_matches,
    words_differ, Packet,
};
use crate::order::{sort_dedup_texts, text_increasing};
use crate::text::{contains_char, has_char, strs, svec, texts, texts_push};

verus! {

/// One rule: the arguments that check for it and those that add it.
pub type IptablesRule = (Vec<String>, Vec<String>);

/// The texts of a rule.
pub open spec fn rule_texts(r: (Vec<String>, Vec<String>)) -> (Seq<Seq<char>>, Seq<Seq<char>>) {
    (texts(r.0@), texts(r.1@))
}

/// The texts of a list of rules.
pub open spec fn rules_texts(v: Seq<(Vec<String>, Vec<String>)>) -> Seq<(Seq<Seq<char>>, Seq<Seq<char>>)> {
    Seq::new(v.len(), |i: int| rule_texts(v[i]))
}

/// The rule that lets a guest reach one address; added in front of the chain.
pub open spec fn accept_rule(tap: Seq<char>, uplink: Seq<char>, ip: Seq<char>) -> (Seq<Seq<char>>, Seq<Seq<char>>) {
    (
        seq!["-C"@, "FORWARD"@, "-i"@, tap, "-o"@, uplink, "-d"@, ip, "-j"@, "ACCEPT"@],
        seq!["-I"@, "FORWARD"@, "1"@, "-i"@, tap, "-o"@, uplink, "-d"@, ip, "-j"@, "ACCEPT"@],
    )
}

/// The rule that lets replies back in; added in front of the chain.
pub open spec fn established_rule(tap: Seq<char>, uplink: Seq<char>) -> (Seq<Seq<char>>, Seq<Seq<char>>) {
    (
        seq!["-C"@, "FORWARD"@, "-i"@, uplink, "-o"@, tap, "-m"@, "state"@, "--state"@, "RELATED,ESTABLISHED"@, "-j"@, "ACCEPT"@],
        seq![
            "-I"@,
            "FORWARD"@,
            "1"@,
            "-i"@,
            uplink,
            "-o"@,
            tap,
            "-m"@,
            "state"@,
            "--state"@,
            "RELATED,ESTABLISHED"@,
            "-j"@,
            "ACCEPT"@,
        ],
    )
}

/// The rule that drops whatever else the guest sends out; added at the end of the chain.
pub open spec fn drop_rule(tap: Seq<char>, uplink: Seq<char>) -> (Seq<Seq<char>>, Seq<Seq<char>>) {
    (
        seq!["-C"@, "FORWARD"@, "-i"@, tap, "-o"@, uplink, "-j"@, "DROP"@],
        seq!["-A"@, "FORWARD"@, "-i"@, tap, "-o"@, uplink, "-j"@, "DROP"@],
    )
}

/// The rules that accept each of the addresses.
pub open spec fn accept_rules(tap: Seq<char>, uplink: Seq<char>, ips: Seq<Seq<char>>) -> Seq<(Seq<Seq<char>>, Seq<Seq<char>>)> {
    Seq::new(ips.len(), |i: int| accept_rule(tap, uplink, ips[i]))
}

/// The rules for a guest that may reach `allow` and `always` only; none where
/// both are empty.
pub open spec fn egress(tap: Seq<char>, uplink: Seq<char>, allow: Seq<Seq<char>>, always: Seq<Seq<char>>) -> Seq<
    (Seq<Seq<char>>, Seq<Seq<char>>),
> {
    if allow.len() == 0 && always.len() == 0 {
        Seq::empty()
    } else {
        accept_rules(tap, uplink, allow + always).push(established_rule(tap, uplink)).push(drop_rule(tap, uplink))
    }
}

/// Adding a rule to a list adds its texts.
proof fn rules_push(v: Seq<(Vec<String>, Vec<String>)>, r: (Vec<String>, Vec<String>))
    ensures
        rules_texts(v.push(r)) == rules_texts(v).push(rule_texts(r)),
{
    assert(rules_texts(v.push(r)) =~= rules_texts(v).push(rule_texts(r)));
}

/// The rule that lets a guest reach one address.
fn make_accept(tap: &str, uplink: &str, ip: &str) -> (r: IptablesRule)
    ensures
        rule_texts(r) == accept_rule(tap@, uplink@, ip@),
{
    let check: [&str; 10] = ["-C", "FORWARD", "-i", tap, "-o", uplink, "-d", ip, "-j", "ACCEPT"];
    let add_args: [&str; 11] = ["-I", "FORWARD", "1", "-i", tap, "-o", uplink, "-d", ip, "-j", "ACCEPT"];
    assert(strs(check@) =~= accept_rule(tap@, uplink@, ip@).0);
    assert(strs(add_args@) =~= accept_rule(tap@, uplink@, ip@).1);
    (svec(&check), svec(&add_args))
}

/// The rule that lets replies back in.
pub fn make_established(tap: &str, uplink: &str) -> (r: IptablesRule)
    ensures
        rule_texts(r) == established_rule(tap@, uplink@),
{
    let check: [&str; 12] = [
        "-C",
        "FORWARD",
        "-i",
        uplink,
        "-o",
        tap,
        "-m",
        "state",
        "--state",
        "RELATED,ESTABLISHED",
        "-j",
        "ACCEPT",
    ];
    let add_args: [&str; 13] = [
        "-I",
        "FORWARD",
        "1",
        "-i",
        uplink,
        "-o",
        tap,
        "-m",
        "state",
        "--state",
        "RELATED,ESTABLISHED",
        "-j",
        "ACCEPT",
    ];
    assert(strs(check@) =~= established_rule(tap@, uplink@).0);
    assert(strs(add_args@) =~= established_rule(tap@, uplink@).1);
    (svec(&check), svec(&add_args))
}

/// The rule that drops whatever else the guest sends out.
fn make_drop(tap: &str, uplink: &str) -> (r: IptablesRule)
    ensures
        rule_texts(r) == drop_rule(tap@, uplink@),
{
    let check: [&str; 8] = ["-C", "FORWARD", "-i", tap, "-o", uplink, "-j", "DROP"];
    let add_args: [&str; 8] = ["-A", "FORWARD", "-i", tap, "-o", uplink, "-j", "DROP"];
    assert(strs(check@) =~= drop_rule(tap@, uplink@).0);
    assert(strs(add_args@) =~= drop_rule(tap@, uplink@).1);
    (svec(&check), svec(&add_args))
}

/// The rules for a guest behind `tap` that may reach `allow_ips` and
/// `always_allow` only: an accept per address, the way back in, and a final
/// drop. Without any address there are no rules.
pub fn egress_rules(tap: &str, uplink: &str, allow_ips: &[String], always_allow: &[String]) -> (r: Vec<IptablesRule>)
    ensures
        rules_texts(r@) == egress(tap@, uplink@, texts(allow_ips@), texts(always_allow@)),
{
    let mut out: Vec<IptablesRule> = Vec::new();
    assert(rules_texts(out@) =~= Seq::empty());
    assert(texts(allow_ips@).len() == allow_ips@.len() && texts(always_allow@).len() == always_allow@.len());
    if allow_ips.len() == 0 && always_allow.len() == 0 {
        return out;
    }
    let ghost all = texts(allow_ips@) + texts(always_allow@);
    let ghost want = accept_rules(tap@, uplink@, all);
    let mut i: usize = 0;
    assert(want.take(0) =~= Seq::empty());
    while i < allow_ips.len()
        invariant
            i <= allow_ips@.len(),
            all == texts(allow_ips@) + texts(always_allow@),
            want == accept_rules(tap@, uplink@, all),
            rules_texts(out@) == want.take(i as int),
        decreases allow_ips@.len() - i,
    {
        let rule = make_accept(tap, uplink, &allow_ips[i]);
        proof {
            rules_push(out@, rule);
            assert(all[i as int] == allow_ips@[i as int]@);
            assert(want.take(i as int).push(rule_texts(rule)) =~= want.take(i + 1));
        }
        out.push(rule);
        i += 1;
    }
    let mut j: usize = 0;
    while j < always_allow.len()
        invariant
            j <= always_allow@.len(),
            all == texts(allow_ips@) + texts(always_allow@),
            want == accept_rules(tap@, uplink@, all),
            rules_texts(out@) == want.take(allow_ips@.len() + j),
        decreases always_allow@.len() - j,
    {
        let rule = make_accept(tap, uplink, &always_allow[j]);
        proof {
            rules_push(out@, rule);
            assert(all[allow_ips@.len() + j] == always_allow@[j as int]@);
            assert(want.take(allow_ips@.len() + j).push(rule_texts(rule)) =~= want.take(allow_ips@.len() + j + 1));
        }
        out.push(rule);
        j += 1;
    }
    assert(want.take(allow_ips@.len() + j) =~= want);
    let back = make_established(tap, uplink);
    proof {
        rules_push(out@, back);
    }
    out.push(back);
    let drop_all = make_drop(tap, uplink);
    proof {
        rules_push(out@, drop_all);
    }
    out.push(drop_all);
    out
}

/// Does a rule add an accept for packets that leave the guest, without saying
/// where to?
pub open spec fn is_blanket_accept(tap: Seq<char>, uplink: Seq<char>, rule: (Seq<Seq<char>>, Seq<Seq<char>>)) -> bool {
    rule.1 == seq!["-I"@, "FORWARD"@, "1"@, "-i"@, tap, "-o"@, uplink, "-j"@, "ACCEPT"@]
}

/// With an allow-list, the last rule drops what is not allowed, exactly the
/// listed addresses have an accept, and no rule accepts everything.
pub proof fn law_egress_deny_by_default(tap: Seq<char>, uplink: Seq<char>, allow: Seq<Seq<char>>, always: Seq<Seq<char>>)
    requires
        allow.len() + always.len() > 0,
    ensures
        ({
            let rules = egress(tap, uplink, allow, always);
            &&& rules.len() == allow.len() + always.len() + 2
            &&& rules.last() == drop_rule(tap, uplink)
            &&& forall|i: int| 0 <= i < allow.len() + always.len() ==> #[trigger] rules[i] == accept_rule(tap, uplink, (allow + always)[i])
            &&& forall|i: int| 0 <= i < rules.len() ==> !is_blanket_accept(tap, uplink, #[trigger] rules[i])
        }),
{
    let rules = egress(tap, uplink, allow, always);
    reveal_strlit("-A");
    reveal_strlit("-I");
    assert forall|i: int| 0 <= i < rules.len() implies !is_blanket_accept(tap, uplink, #[trigger] rules[i]) by {
        let blanket = seq!["-I"@, "FORWARD"@, "1"@, "-i"@, tap, "-o"@, uplink, "-j"@, "ACCEPT"@];
        assert(blanket.len() == 9);
        assert(accept_rule(tap, uplink, (allow + always)[i]).1.len() == 11);
        assert(established_rule(tap, uplink).1.len() == 13);
        assert(drop_rule(tap, uplink).1.len() == 8);
    }
}

/// The arguments that add the rules of a list, in order.
pub open spec fn adding(rules: Seq<(Seq<Seq<char>>, Seq<Seq<char>>)>) -> Seq<Seq<Seq<char>>> {
    Seq::new(rules.len(), |i: int| rules[i].1)
}

/// Does one of the addresses or subnets of a list stand for `ip`?
pub open spec fn listed(list: Seq<Seq<char>>, ip: Seq<char>, covers: spec_fn(Seq<char>, Seq<char>) -> bool) -> bool {
    exists|i: int| 0 <= i < list.len() && covers(#[trigger] list[i], ip)
}

/// The forward chain once the rules of an allow-list were added to `before`.
pub open spec fn filtered(before: Seq<Seq<Seq<char>>>, tap: Seq<char>, uplink: Seq<char>, allow: Seq<Seq<char>>, always: Seq<Seq<char>>) -> Seq<
    Seq<Seq<char>>,
> {
    chain_after_all("FORWARD"@, before, adding(egress(tap, uplink, allow, always)))
}

/// The fate of a packet once the accepts of the first `k` addresses were added.
proof fn accepts_fate(
    before: Seq<Seq<Seq<char>>>,
    tap: Seq<char>,
    uplink: Seq<char>,
    allow: Seq<Seq<char>>,
    always: Seq<Seq<char>>,
    k: int,
    p: Packet,
    covers: spec_fn(Seq<char>, Seq<char>) -> bool,
)
    requires
        0 <= k <= allow.len() + always.len(),
        passes(before, p, covers),
    ensures
        ({
            let chain = chain_after_all("FORWARD"@, before, adding(egress(tap, uplink, allow, always)).take(k));
            if p.in_if == tap && p.out_if == uplink && listed((allow + always).take(k), p.dst, covers) {
                fate(chain, p, covers) == Some("ACCEPT"@) && !passes(chain, p, covers)
            } else {
                passes(chain, p, covers)
            }
        }),
    decreases k,
{
    let ips = allow + always;
    let adds = adding(egress(tap, uplink, allow, always));
    if k == 0 {
        assert(adds.take(0) =~= Seq::empty());
    } else {
        accepts_fate(before, tap, uplink, allow, always, k - 1, p, covers);
        words_differ();
        assert(adds.take(k).drop_last() =~= adds.take(k - 1));
        assert(adds.take(k).last() == accept_rule(tap, uplink, ips[k - 1]).1);
        let old_chain = chain_after_all("FORWARD"@, before, adds.take(k - 1));
        let chain = chain_after_all("FORWARD"@, before, adds.take(k));
        let o = seq!["-i"@, tap, "-o"@, uplink, "-d"@, ips[k - 1], "-j"@, "ACCEPT"@];
        assert(accept_rule(tap, uplink, ips[k - 1]).1.skip(3) =~= o);
        assert(chain == seq![o] + old_chain);
        assert(chain[0] == o && chain.skip(1) =~= old_chain);
        towards_matches(tap, uplink, ips[k - 1], "ACCEPT"@, p, covers);
        let now = ips.take(k);
        let then = ips.take(k - 1);
        assert(listed(now, p.dst, covers) <==> listed(then, p.dst, covers) || covers(ips[k - 1], p.dst)) by {
            if listed(now, p.dst, covers) {
                let i = choose|i: int| 0 <= i < now.len() && covers(#[trigger] now[i], p.dst);
                if i < k - 1 {
                    assert(then[i] == now[i]);
                }
            }
            if listed(then, p.dst, covers) {
                let i = choose|i: int| 0 <= i < then.len() && covers(#[trigger] then[i], p.dst);
                assert(now[i] == then[i]);
            }
            assert(now[k - 1] == ips[k - 1]);
        }
        if !passes(old_chain, p, covers) {
            let i = choose|i: int| 0 <= i < old_chain.len() && matches_packet(#[trigger] old_chain[i], p, covers);
            assert(chain[i + 1] == old_chain[i]);
        } else if !matches_packet(o, p, covers) {
            assert forall|i: int| 0 <= i < chain.len() implies !matches_packet(#[trigger] chain[i], p, covers) by {
                if i > 0 {
                    assert(chain[i] == old_chain[i - 1]);
                }
            }
        }
    }
}

/// What an allow-list is for: a packet that a guest sends out is accepted
/// exactly if it goes to a listed address, whatever it says it comes from, and
/// is dropped otherwise; replies come back in, and whatever else comes in for
/// the guest is not let in by these rules. No packet of another interface is
/// touched. That holds on top of any chain that does not already decide.
pub proof fn law_only_listed_hosts_are_reached(
    before: Seq<Seq<Seq<char>>>,
    tap: Seq<char>,
    uplink: Seq<char>,
    allow: Seq<Seq<char>>,
    always: Seq<Seq<char>>,
    p: Packet,
    covers: spec_fn(Seq<char>, Seq<char>) -> bool,
)
    requires
        tap != uplink,
        allow.len() + always.len() > 0,
        passes(before, p, covers),
    ensures
        fate(filtered(before, tap, uplink, allow, always), p, covers) == if p.in_if == tap && p.out_if == uplink {
            if listed(allow + always, p.dst, covers) {
                Some("ACCEPT"@)
            } else {
                Some("DROP"@)
            }
        } else if p.in_if == uplink && p.out_if == tap && p.reply {
            Some("ACCEPT"@)
        } else {
            None
        },
{
    words_differ();
    let ips = allow + always;
    let n = ips.len() as int;
    let adds = adding(egress(tap, uplink, allow, always));
    accepts_fate(before, tap, uplink, allow, always, n, p, covers);
    assert(ips.take(n) =~= ips);
    let c0 = chain_after_all("FORWARD"@, before, adds.take(n));
    assert(adds.take(n + 1).drop_last() =~= adds.take(n));
    assert(adds.take(n + 1).last() == established_rule(tap, uplink).1);
    assert(adds.drop_last() =~= adds.take(n + 1));
    assert(adds.last() == drop_rule(tap, uplink).1);
    let back = seq!["-i"@, uplink, "-o"@, tap, "-m"@, "state"@, "--state"@, "RELATED,ESTABLISHED"@, "-j"@, "ACCEPT"@];
    let end = seq!["-i"@, tap, "-o"@, uplink, "-j"@, "DROP"@];
    assert(established_rule(tap, uplink).1.skip(3) =~= back);
    assert(drop_rule(tap, uplink).1.skip(2) =~= end);
    let c1 = chain_after_all("FORWARD"@, before, adds.take(n + 1));
    assert(c1 == seq![back] + c0);
    let c2 = filtered(before, tap, uplink, allow, always);
    assert(c2 == c1.push(end));
    replies_match(uplink, tap, "ACCEPT"@, p, covers);
    between_matches(tap, uplink, "DROP"@, p, covers);
    assert(c2[0] == back);
    assert(c2.skip(1) =~= c0 + seq![end]);
    if !matches_packet(back, p, covers) {
        let tail = seq![end];
        assert(tail[0] == end && tail.skip(1) =~= Seq::empty());
        reveal_with_fuel(fate, 3);
        if passes(c0, p, covers) {
            passes_on(c0, tail, p, covers);
        } else {
            stops_at(c0, tail, p, covers);
        }
    }
}

/// Every rule is asked for before it is added, as the very rule that it is.
pub proof fn law_rules_are_asked_for(tap: Seq<char>, uplink: Seq<char>, allow: Seq<Seq<char>>, always: Seq<Seq<char>>, i: int)
    requires
        0 <= i < egress(tap, uplink, allow, always).len(),
    ensures
        asks_for("FORWARD"@, egress(tap, uplink, allow, always)[i].0, egress(tap, uplink, allow, always)[i].1),
{
    words_differ();
    let rule = egress(tap, uplink, allow, always)[i];
    if rule.1[0] == "-I"@ {
        assert(rule.0.skip(2) =~= rule.1.skip(3));
    } else {
        assert(rule.0.skip(2) =~= rule.1.skip(2));
    }
}

/// Is an allow-list entry used as it is, without asking DNS? That holds of an
/// address and of anything with a slash.
pub fn is_literal_host(host: &str, parses_as_ip: bool) -> (r: bool)
    ensures
        r == (parses_as_ip || has_char(host@, '/')),
{
    parses_as_ip || contains_char(host, '/')
}

/// An allow-list entry, with what is known of it.
#[derive(Debug)]
pub struct HostAnswer {
    /// The entry.
    pub host: String,
    /// Does it read as an address?
    pub is_ip: bool,
    /// The addresses that DNS gave for it; none where it gave no answer.
    pub addrs: Vec<String>,
}

/// The addresses that one entry stands for: itself where it is used as it is,
/// else what DNS gave. A name without an answer stands for nothing, so it
/// stays blocked.
pub open spec fn answer_texts(a: HostAnswer) -> Seq<Seq<char>> {
    if a.is_ip || has_char(a.host@, '/') {
        seq![a.host@]
    } else {
        texts(a.addrs@)
    }
}

/// The addresses that the first entries stand for, one after the other.
pub open spec fn answers_texts(v: Seq<HostAnswer>) -> Seq<Seq<char>>
    decreases v.len(),
{
    if v.len() == 0 {
        Seq::empty()
    } else {
        answers_texts(v.drop_last()) + answer_texts(v.last())
    }
}

/// The addresses that an allow-list stands for, in order and each once.
pub fn resolve_hosts(answers: &[HostAnswer]) -> (r: Vec<String>)
    ensures
        text_increasing(texts(r@)),
        forall|t: Seq<char>| #[trigger] texts(r@).contains(t) <==> answers_texts(answers@).contains(t),
{
    let mut found: Vec<String> = Vec::new();
    assert(texts(found@) =~= Seq::empty());
    let mut i: usize = 0;
    assert(answers@.take(0) =~= Seq::empty());
    while i < answers.len()
        invariant
            i <= answers@.len(),
            texts(found@) == answers_texts(answers@.take(i as int)),
        decreases answers@.len() - i,
    {
        let a = &answers[i];
        let ghost before = texts(found@);
        if is_literal_host(&a.host, a.is_ip) {
            let h: String = a.host.as_str().to_owned();
            proof {
                texts_push(found@, h);
                assert(before.push(h@) =~= before + answer_texts(*a));
            }
            found.push(h);
        } else {
            let mut j: usize = 0;
            assert(before + texts(a.addrs@).take(0) =~= before);
            while j < a.addrs.len()
                invariant
                    j <= a.addrs@.len(),
                    texts(found@) == before + texts(a.addrs@).take(j as int),
                decreases a.addrs@.len() - j,
            {
                let t: String = a.addrs[j].as_str().to_owned();
                proof {
                    texts_push(found@, t);
                    assert((before + texts(a.addrs@).take(j as int)).push(t@) =~= before + texts(a.addrs@).take(j + 1));
                }
                found.push(t);
                j += 1;
            }
            assert(texts(a.addrs@).take(j as int) =~= texts(a.addrs@));
        }
        proof {
            assert(answers@.take(i + 1).drop_last() =~= answers@.take(i as int));
            assert(answers@.take(i + 1).last() == *a);
        }
        i += 1;
    }
    assert(answers@.take(i as int) =~= answers@);
    sort_dedup_texts(&found)
}

/// An address is allowed exactly where some entry of the list stands for it:
/// an entry that is an address or a range stands for itself, a name for what
/// DNS gave for it, and a name without an answer for nothing.
pub proof fn law_what_a_list_stands_for(v: Seq<HostAnswer>, t: Seq<char>)
    ensures
        answers_texts(v).contains(t) <==> exists|i: int|
            0 <= i < v.len() && if (#[trigger] v[i]).is_ip || has_char(v[i].host@, '/') {
                v[i].host@ == t
            } else {
                texts(v[i].addrs@).contains(t)
            },
    decreases v.len(),
{
    if v.len() > 0 {
        let head = v.drop_last();
        let a = v.last();
        law_what_a_list_stands_for(head, t);
        let before = answers_texts(head);
        let own = answer_texts(a);
        let all = answers_texts(v);
        assert(v[v.len() - 1] == a);
        assert(own.contains(t) <==> if a.is_ip || has_char(a.host@, '/') {
            a.host@ == t
        } else {
            texts(a.addrs@).contains(t)
        }) by {
            if a.is_ip || has_char(a.host@, '/') {
                assert(own[0] == a.host@);
            }
        }
        if all.contains(t) {
            let k = choose|k: int| 0 <= k < all.len() && all[k] == t;
            if k < before.len() {
                assert(before[k] == t);
                let i = choose|i: int|
                    0 <= i < head.len() && if (#[trigger] head[i]).is_ip || has_char(head[i].host@, '/') {
                        head[i].host@ == t
                    } else {
                        texts(head[i].addrs@).contains(t)
                    };
                assert(v[i] == head[i]);
            } else {
                assert(own[k - before.len()] == t);
            }
        }
        if before.contains(t) {
            let k = choose|k: int| 0 <= k < before.len() && before[k] == t;
            assert(all[k] == t);
        }
        if own.contains(t) {
            let k = choose|k: int| 0 <= k < own.len() && own[k] == t;
            assert(all[before.len() + k] == t);
        }
        assert forall|i: int|
            0 <= i < v.len() && (if (#[trigger] v[i]).is_ip || has_char(v[i].host@, '/') {
                v[i].host@ == t
            } else {
                texts(v[i].addrs@).contains(t)
            }) implies all.contains(t) by {
            if i < head.len() {
                assert(head[i] == v[i]);
            }
        }
    }
}

} // verus!
