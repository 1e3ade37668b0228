//! Which TAPs of the tap subnet are up on this host, and on which slots.
use vstd::prelude::*;
use std::collections::HashSet;
use crate::firecracker::subnet::{ipv4_text_has_no_slash, is_ipv4, ipv4_value, parse_subnet, subnet_read, SERVING_LINK_SLOTS};
use crate::ipv4::{ipv4_text, law_ipv4_text_injective, parse_ipv4};
use crate::text::{before_char, parted_after, texts, trim_end_char, up_to_char, without_end};
use crate::text_map::TextMap;
use crate::words::{find_after, find_word_unique, lines, split_lines, split_words, word_after, words};

verus! {

broadcast use vstd::std_specs::hash::group_hash_axioms;

/// The links that are up.
#[derive(Debug)]
pub struct LiveLinks {
    /// The slot of each TAP that is up.
    pub by_tap: TextMap<u32>,
    /// The slots that are up.
    pub slots: HashSet<u32>,
}

/// A `LiveLinks` as mathematical collections.
#[verifier::ext_equal]
pub struct LiveModel {
    pub by_tap: Map<Seq<char>, u32>,
    pub slots: Set<u32>,
}

impl View for LiveLinks {
    type V = LiveModel;

    open spec fn view(&self) -> LiveModel {
        LiveModel { by_tap: self.by_tap@, slots: self.slots@ }
    }
}

/// No link is up.
pub open spec fn no_links() -> LiveModel {
    LiveModel { by_tap: Map::empty(), slots: Set::empty() }
}

/// One more link is up.
pub open spec fn with_link(live: LiveModel, tap: Seq<char>, slot: u32) -> LiveModel {
    LiveModel { by_tap: live.by_tap.insert(tap, slot), slots: live.slots.insert(slot) }
}

impl LiveLinks {
    /// Validity of the TAP table.
    pub open spec fn wf(&self) -> bool {
        self.by_tap.wf()
    }

    /// No link is up.
    pub fn new() -> (r: Self)
        ensures
            r.wf(),
            r@ == no_links(),
    {
        LiveLinks { by_tap: TextMap::new(), slots: HashSet::new() }
    }

    /// Notes that `tap` is up on `slot`.
    pub fn insert(&mut self, tap: &str, slot: u32)
        requires
            old(self).wf(),
        ensures
            final(self).wf(),
            final(self)@ == with_link(old(self)@, tap@, slot),
    {
        self.by_tap.insert(tap, slot);
        self.slots.insert(slot);
    }
}

/// The TAP and the serving slot that one line of `ip -o -4 addr show` tells
/// of: the second word is the interface, and the word behind `inet` its
/// address. Only host ends of serving links count.
pub open spec fn line_link(base: nat, line: Seq<char>) -> Option<(Seq<char>, u32)> {
    let fields = words(line);
    if fields.len() < 2 {
        None
    } else {
        match word_after(fields, "inet"@) {
            None => None,
            Some(cidr) => {
                let ip_text = up_to_char(cidr, '/');
                if !is_ipv4(ip_text) {
                    None
                } else {
                    let ip = ipv4_value(ip_text) as int;
                    let offset = ip - base;
                    if offset < 0 || offset % 4 != 1 || offset / 4 >= SERVING_LINK_SLOTS {
                        None
                    } else {
                        Some((without_end(fields[1], ':'), (offset / 4) as u32))
                    }
                }
            },
        }
    }
}

/// The links that the lines tell of; a later line about a TAP replaces an earlier one.
pub open spec fn links_of(base: nat, ls: Seq<Seq<char>>) -> LiveModel
    decreases ls.len(),
{
    if ls.len() == 0 {
        no_links()
    } else {
        let before = links_of(base, ls.drop_last());
        match line_link(base, ls.last()) {
            Some((tap, slot)) => with_link(before, tap, slot),
            None => before,
        }
    }
}

/// The TAP and the serving slot that one line tells of.
fn parse_line(base: u32, line: &str) -> (r: Option<(String, u32)>)
    ensures
        match r {
            Some((tap, slot)) => line_link(base as nat, line@) == Some((tap@, slot)),
            None => line_link(base as nat, line@) is None,
        },
{
    let fields = split_words(line);
    assert(texts(fields@).len() == fields@.len());
    if fields.len() < 2 {
        return None;
    }
    let cidr = match find_after(&fields, "inet") {
        Some(w) => w,
        None => return None,
    };
    let ip_text = before_char(&cidr, '/');
    let ip: u32 = match parse_ipv4(&ip_text) {
        Some(a) => a,
        None => return None,
    };
    proof {
        assert(is_ipv4(ip_text@));
        law_ipv4_text_injective(ip, ipv4_value(ip_text@));
    }
    if ip < base {
        return None;
    }
    let offset: u32 = ip - base;
    if offset % 4 != 1 {
        return None;
    }
    let slot: u32 = offset / 4;
    if slot >= SERVING_LINK_SLOTS {
        return None;
    }
    let tap = trim_end_char(&fields[1], ':');
    assert(texts(fields@)[1] == fields@[1]@);
    Some((tap, slot))
}

/// The links that the output of `ip -o -4 addr show` tells of; none where the
/// subnet itself cannot be read.
pub fn parse_live_links(tap_subnet: &str, output: &str) -> (r: LiveLinks)
    ensures
        r.wf(),
        match subnet_read(tap_subnet@) {
            Ok((net, _)) => r@ == links_of(net, lines(output@)),
            Err(_) => r@ == no_links(),
        },
{
    let base: u32 = match parse_subnet(tap_subnet) {
        Ok((net, _prefix)) => net,
        Err(_) => return LiveLinks::new(),
    };
    let ls = split_lines(output);
    let mut links = LiveLinks::new();
    let ghost all = lines(output@);
    let mut i: usize = 0;
    assert(all.take(0) =~= Seq::empty());
    while i < ls.len()
        invariant
            i <= ls@.len(),
            all == texts(ls@),
            links.wf(),
            links@ == links_of(base as nat, all.take(i as int)),
        decreases ls@.len() - i,
    {
        proof {
            let t = all.take(i + 1);
            assert(t.drop_last() =~= all.take(i as int));
            assert(t.last() == ls@[i as int]@);
        }
        match parse_line(base, &ls[i]) {
            Some((tap, slot)) => {
                links.insert(&tap, slot);
            },
            None => {},
        }
        i += 1;
    }
    assert(all.take(i as int) =~= all);
    links
}

/// Every slot that is told of is a serving slot, and every TAP's slot is among
/// the slots.
pub proof fn law_live_links_serving(base: nat, ls: Seq<Seq<char>>)
    ensures
        forall|tap: Seq<char>| #[trigger] links_of(base, ls).by_tap.dom().contains(tap) ==> links_of(base, ls).slots.contains(
            links_of(base, ls).by_tap[tap],
        ),
        forall|s: u32| #[trigger] links_of(base, ls).slots.contains(s) ==> s < SERVING_LINK_SLOTS,
    decreases ls.len(),
{
    if ls.len() > 0 {
        let before = links_of(base, ls.drop_last());
        law_live_links_serving(base, ls.drop_last());
        match line_link(base, ls.last()) {
            Some((t, slot)) => {
                let now = with_link(before, t, slot);
                assert(links_of(base, ls) == now);
                assert forall|tap: Seq<char>| #[trigger] now.by_tap.dom().contains(tap) implies now.slots.contains(now.by_tap[tap]) by {
                    if tap != t {
                        assert(before.by_tap.dom().contains(tap));
                    }
                }
                assert forall|s: u32| #[trigger] now.slots.contains(s) implies s < SERVING_LINK_SLOTS by {
                    if s != slot {
                        assert(before.slots.contains(s));
                    }
                }
            },
            None => {
                assert(links_of(base, ls) == before);
            },
        }
    }
}

/// A line that tells of the host's end of a serving link tells of its TAP and
/// its slot; the guest's end, the network address and the broadcast address
/// of a link, and addresses in front of the subnet, tell of none.
pub proof fn law_host_ends_are_found(base: u32, ip: u32, slot: u32, line: Seq<char>, at: int)
    requires
        words(line).len() >= 2,
        0 <= at,
        at + 1 < words(line).len(),
        words(line)[at] == "inet"@,
        forall|j: int| 0 <= j < at ==> words(line)[j] != "inet"@,
        words(line)[at + 1] == ipv4_text(ip as nat) + "/30"@,
    ensures
        ip == base + 4 * slot + 1 && slot < 16382 ==> line_link(base as nat, line) == Some((without_end(words(line)[1], ':'), slot)),
        ip < base || (ip - base) % 4 != 1 || ip - base > 4 * 16382 ==> line_link(base as nat, line) is None,
{
    let w = words(line);
    find_word_unique(w, "inet"@, at);
    reveal_strlit("/30");
    ipv4_text_has_no_slash(ip);
    let t = ipv4_text(ip as nat);
    assert(w[at + 1] =~= t.push('/') + seq!['3', '0']);
    parted_after(t, '/', seq!['3', '0']);
    assert(is_ipv4(t));
    law_ipv4_text_injective(ip, ipv4_value(t));
}

/// The last line that tells of a TAP says on which slot it is up; and every
/// slot that any line tells of is known to be in use.
pub proof fn law_last_line_counts(base: nat, ls: Seq<Seq<char>>, k: int, tap: Seq<char>, slot: u32)
    requires
        0 <= k < ls.len(),
        line_link(base, ls[k]) == Some((tap, slot)),
    ensures
        links_of(base, ls).slots.contains(slot),
        links_of(base, ls).by_tap.dom().contains(tap),
        (forall|j: int| k < j < ls.len() ==> !tells_of(base, #[trigger] ls[j], tap)) ==> links_of(base, ls).by_tap[tap] == slot,
    decreases ls.len(),
{
    let head = ls.drop_last();
    if k < ls.len() - 1 {
        assert(head[k] == ls[k]);
        law_last_line_counts(base, head, k, tap, slot);
        assert(ls.last() == ls[ls.len() - 1]);
        if forall|j: int| k < j < ls.len() ==> !tells_of(base, #[trigger] ls[j], tap) {
            assert forall|j: int| k < j < head.len() implies !tells_of(base, #[trigger] head[j], tap) by {
                assert(head[j] == ls[j]);
            }
            assert(!tells_of(base, ls[ls.len() - 1], tap));
        }
    }
}

/// Does a line tell of that TAP?
pub open spec fn tells_of(base: nat, line: Seq<char>, tap: Seq<char>) -> bool {
    line_link(base, line) matches Some((t, _)) && t == tap
}

/// A TAP that no line tells of is not up.
pub proof fn law_untold_is_not_up(base: nat, ls: Seq<Seq<char>>, tap: Seq<char>)
    requires
        forall|j: int| 0 <= j < ls.len() ==> !tells_of(base, #[trigger] ls[j], tap),
    ensures
        !links_of(base, ls).by_tap.dom().contains(tap),
    decreases ls.len(),
{
    if ls.len() > 0 {
        let head = ls.drop_last();
        assert forall|j: int| 0 <= j < head.len() implies !tells_of(base, #[trigger] head[j], tap) by {
            assert(head[j] == ls[j]);
        }
        assert(!tells_of(base, ls[ls.len() - 1], tap));
        law_untold_is_not_up(base, head, tap);
    }
}

} // verus!
