//! What holds of the link table as a whole, whatever is done to it.
use vstd::prelude::*;
use crate::firecracker::identity::{preferred, tap_name};
use crate::firecracker::link_allocator::{
    allocated, claim_cleared, claim_end, evidence_for, first_free, held_slots, is_key_of, keeps, key_uuid, record_names, record_owner,
    released, snapshot_owner, swept, AllocationMode, Assigned, Evidence,
};
use crate::firecracker::link_error::LinkFault;
use crate::firecracker::live_links::LiveModel;
use crate::firecracker::subnet::{normalized, SERVING_LINK_SLOTS};
use crate::json::JsonModel;
use crate::text::{find_char_first, find_char_unique, has_char, parted_after};

verus! {

/// No two VM keys share a slot.
pub open spec fn distinct_slots(m: Map<Seq<char>, Assigned>) -> bool {
    forall|a: Seq<char>, b: Seq<char>|
        #[trigger] m.dom().contains(a) && #[trigger] m.dom().contains(b) && a != b ==> m[a].slot != m[b].slot
}

/// Every slot of the table is a serving slot.
pub open spec fn serving_slots(m: Map<Seq<char>, Assigned>) -> bool {
    forall|k: Seq<char>| #[trigger] m.dom().contains(k) ==> m[k].slot < SERVING_LINK_SLOTS
}

/// Every TAP that is up is on a serving slot.
pub open spec fn live_serving(live: LiveModel) -> bool {
    forall|t: Seq<char>| #[trigger] live.by_tap.dom().contains(t) ==> live.by_tap[t] < SERVING_LINK_SLOTS
}

/// The first free slot is free, is a serving slot, and every slot passed over
/// on the way to it was taken; where there is none, every serving slot is taken.
pub proof fn law_first_free(start: nat, taken: Set<u32>, offset: nat)
    requires
        offset <= SERVING_LINK_SLOTS,
    ensures
        match first_free(start, taken, offset) {
            Some(s) => {
                &&& s < SERVING_LINK_SLOTS
                &&& !taken.contains(s)
                &&& exists|o: nat|
                    offset <= o < SERVING_LINK_SLOTS && s == #[trigger] round_slot(start, o) && forall|p: nat|
                        offset <= p < o ==> taken.contains(#[trigger] round_slot(start, p))
            },
            None => forall|p: nat| offset <= p < SERVING_LINK_SLOTS ==> taken.contains(#[trigger] round_slot(start, p)),
        },
    decreases SERVING_LINK_SLOTS - offset,
{
    if offset < SERVING_LINK_SLOTS {
        let here = round_slot(start, offset);
        if taken.contains(here) {
            law_first_free(start, taken, offset + 1);
            match first_free(start, taken, offset) {
                Some(s) => {
                    let o = choose|o: nat|
                        offset + 1 <= o < SERVING_LINK_SLOTS && s == #[trigger] round_slot(start, o) && forall|p: nat|
                            offset + 1 <= p < o ==> taken.contains(#[trigger] round_slot(start, p));
                    assert forall|p: nat| offset <= p < o implies taken.contains(#[trigger] round_slot(start, p)) by {
                        if p == offset {
                        }
                    }
                },
                None => {},
            }
        } else {
            assert(first_free(start, taken, offset) == Some(here));
        }
    }
}

/// The slot `offset` steps behind `start`, counted round.
pub open spec fn round_slot(start: nat, offset: nat) -> u32 {
    ((start + offset) % (SERVING_LINK_SLOTS as nat)) as u32
}

/// Where no serving slot is free, each one of them is taken.
pub proof fn law_exhausted_means_full(start: nat, taken: Set<u32>, s: u32)
    requires
        first_free(start, taken, 0) is None,
        s < SERVING_LINK_SLOTS,
    ensures
        taken.contains(s),
{
    law_first_free(start, taken, 0);
    let n = SERVING_LINK_SLOTS as int;
    let r = start as int % n;
    let p: nat = if s >= r {
        (s - r) as nat
    } else {
        (s - r + n) as nat
    };
    assert((start + p) as int % n == s) by {
        vstd::arithmetic::div_mod::lemma_fundamental_div_mod(start as int, n);
        let q = start as int / n;
        if s >= r {
            assert(start + p == n * q + s);
            vstd::arithmetic::div_mod::lemma_mod_multiples_vanish(q, s as int, n);
        } else {
            assert(start + p == n * (q + 1) + s) by (nonlinear_arith)
                requires
                    start == n * q + r,
                    p == s - r + n,
            ;
            vstd::arithmetic::div_mod::lemma_mod_multiples_vanish(q + 1, s as int, n);
        }
        vstd::arithmetic::div_mod::lemma_small_mod(s as nat, n as nat);
    }
    assert(round_slot(start, p) == s);
}

/// A sweep keeps slots distinct and serving, drops nothing that it was told
/// to preserve, and changes no assignment that it keeps.
pub proof fn law_sweep_keeps_invariants(
    subnet: Seq<char>,
    m: Map<Seq<char>, Assigned>,
    live: LiveModel,
    ev: Seq<Evidence>,
    preserve: Seq<char>,
    now: u64,
)
    ensures
        distinct_slots(m) ==> distinct_slots(swept(subnet, m, live, ev, preserve, now)),
        serving_slots(m) ==> serving_slots(swept(subnet, m, live, ev, preserve, now)),
        m.dom().contains(preserve) ==> swept(subnet, m, live, ev, preserve, now).dom().contains(preserve),
        forall|k: Seq<char>| #[trigger]
            swept(subnet, m, live, ev, preserve, now).dom().contains(k) ==> m.dom().contains(k) && swept(
                subnet,
                m,
                live,
                ev,
                preserve,
                now,
            )[k] == m[k],
{
}

/// An assignment that nothing owns and that was not used for longer than
/// fifteen minutes is dropped by a sweep.
pub proof fn law_expired_unowned_is_dropped(
    subnet: Seq<char>,
    m: Map<Seq<char>, Assigned>,
    live: LiveModel,
    ev: Seq<Evidence>,
    preserve: Seq<char>,
    now: u64,
    key: Seq<char>,
)
    requires
        m.dom().contains(key),
        key != preserve,
        live.by_tap.dom().contains(tap_name(key)) ==> live.by_tap[tap_name(key)] != m[key].slot,
        match evidence_for(ev, key_uuid(key)) {
            Some(e) => !snapshot_owner(subnet, key, m[key].slot, e.cache) && !record_owner(key, e.record),
            None => true,
        },
        now - m[key].updated > 900,
    ensures
        !swept(subnet, m, live, ev, preserve, now).dom().contains(key),
{
}

/// An assignment that was used in the last fifteen minutes outlives any sweep,
/// as it is, whether anything owns it or not.
pub proof fn law_recent_is_kept(
    subnet: Seq<char>,
    m: Map<Seq<char>, Assigned>,
    live: LiveModel,
    ev: Seq<Evidence>,
    preserve: Seq<char>,
    now: u64,
    key: Seq<char>,
)
    requires
        m.dom().contains(key),
        now - m[key].updated <= 900,
    ensures
        swept(subnet, m, live, ev, preserve, now).dom().contains(key),
        swept(subnet, m, live, ev, preserve, now)[key] == m[key],
{
}

/// An assignment that a live TAP, a snapshot or the runner record owns
/// outlives any sweep, however old it is.
pub proof fn law_owned_is_kept(
    subnet: Seq<char>,
    m: Map<Seq<char>, Assigned>,
    live: LiveModel,
    ev: Seq<Evidence>,
    preserve: Seq<char>,
    now: u64,
    key: Seq<char>,
)
    requires
        m.dom().contains(key),
        (live.by_tap.dom().contains(tap_name(key)) && live.by_tap[tap_name(key)] == m[key].slot) || (match evidence_for(
            ev,
            key_uuid(key),
        ) {
            Some(e) => snapshot_owner(subnet, key, m[key].slot, e.cache) || record_owner(key, e.record),
            None => false,
        }),
    ensures
        swept(subnet, m, live, ev, preserve, now).dom().contains(key),
{
}

/// Allocating keeps slots distinct: a slot that some key holds is never given
/// to another.
pub proof fn law_allocate_keeps_distinct(
    m: Map<Seq<char>, Assigned>,
    live: LiveModel,
    key: Seq<char>,
    mode: AllocationMode,
    owner: Option<Seq<char>>,
    now: u64,
)
    requires
        distinct_slots(m),
        allocated(m, live, key, mode, owner, now) is Ok,
    ensures
        distinct_slots(allocated(m, live, key, mode, owner, now)->Ok_0.0),
{
    let (m2, slot) = allocated(m, live, key, mode, owner, now)->Ok_0;
    assert forall|k: Seq<char>| #[trigger] m.dom().contains(k) && k != key implies m[k].slot != slot by {
        let up = live.by_tap.dom().contains(tap_name(key));
        let known = m.dom().contains(key);
        if up {
        } else if known && !live.slots.contains(m[key].slot) {
        } else {
            law_first_free(crate::firecracker::identity::preferred(key), held_slots(m).union(live.slots), 0);
            assert(held_slots(m).contains(m[k].slot));
        }
    }
}

/// Allocating keeps every slot a serving slot, so that no serving VM ever
/// gets the link of the build VM.
pub proof fn law_allocate_keeps_serving(
    m: Map<Seq<char>, Assigned>,
    live: LiveModel,
    key: Seq<char>,
    mode: AllocationMode,
    owner: Option<Seq<char>>,
    now: u64,
)
    requires
        serving_slots(m),
        live_serving(live),
        allocated(m, live, key, mode, owner, now) is Ok,
    ensures
        serving_slots(allocated(m, live, key, mode, owner, now)->Ok_0.0),
        allocated(m, live, key, mode, owner, now)->Ok_0.1 < SERVING_LINK_SLOTS,
{
    law_first_free(crate::firecracker::identity::preferred(key), held_slots(m).union(live.slots), 0);
}

/// What allocating changes: the key holds the slot that was handed out, it
/// was used now, and no other key is touched. The slot is not live, unless it
/// is the one on which the key's own TAP is up.
pub proof fn law_allocate_touches_one_key(
    m: Map<Seq<char>, Assigned>,
    live: LiveModel,
    key: Seq<char>,
    mode: AllocationMode,
    owner: Option<Seq<char>>,
    now: u64,
)
    requires
        allocated(m, live, key, mode, owner, now) is Ok,
    ensures
        ({
            let (m2, slot) = allocated(m, live, key, mode, owner, now)->Ok_0;
            &&& m2.dom() == m.dom().insert(key)
            &&& m2[key].slot == slot
            &&& m2[key].updated == now
            &&& forall|k: Seq<char>| #[trigger] m.dom().contains(k) && k != key ==> m2[k] == m[k]
            &&& if live.by_tap.dom().contains(tap_name(key)) {
                mode == AllocationMode::Reserve && slot == live.by_tap[tap_name(key)]
            } else {
                !live.slots.contains(slot)
            }
        }),
{
    law_first_free(crate::firecracker::identity::preferred(key), held_slots(m).union(live.slots), 0);
}

/// A launch is refused while the key's TAP is still up, so that a generation
/// never takes the TAP of its draining predecessor.
pub proof fn law_acquire_refused_while_tap_live(m: Map<Seq<char>, Assigned>, live: LiveModel, key: Seq<char>, owner: Option<Seq<char>>, now: u64)
    requires
        live.by_tap.dom().contains(tap_name(key)),
    ensures
        allocated(m, live, key, AllocationMode::Acquire, owner, now) == Err::<(Map<Seq<char>, Assigned>, u32), LinkFault>(
            LinkFault::TapStillLive { tap_name: tap_name(key), vm_key: key },
        ),
{
}

/// While a claim lasts, no second launch of the key gets a link, whatever
/// sweeps happen in between.
pub proof fn law_claim_blocks_second_launch(
    subnet: Seq<char>,
    m: Map<Seq<char>, Assigned>,
    live: LiveModel,
    key: Seq<char>,
    owner: Option<Seq<char>>,
    now: u64,
    live2: LiveModel,
    ev2: Seq<Evidence>,
    owner2: Option<Seq<char>>,
    now2: u64,
)
    requires
        allocated(m, live, key, AllocationMode::Acquire, owner, now) is Ok,
        now2 < claim_end(now),
    ensures
        allocated(
            swept(subnet, allocated(m, live, key, AllocationMode::Acquire, owner, now)->Ok_0.0, live2, ev2, key, now2),
            live2,
            key,
            AllocationMode::Acquire,
            owner2,
            now2,
        ) is Err,
{
    let m2 = allocated(m, live, key, AllocationMode::Acquire, owner, now)->Ok_0.0;
    assert(m2[key].reserved_until == claim_end(now));
    let s = swept(subnet, m2, live2, ev2, key, now2);
    assert(s.dom().contains(key));
}

/// Ending the claim of a launch, by confirming or by giving up, succeeds for
/// its owner, keeps the slot, and lets the key be launched again at once on
/// the same slot, where neither its TAP nor its slot is live.
pub proof fn law_ended_claim_permits_relaunch(
    subnet: Seq<char>,
    m: Map<Seq<char>, Assigned>,
    live: LiveModel,
    key: Seq<char>,
    owner: Seq<char>,
    now: u64,
    live2: LiveModel,
    ev2: Seq<Evidence>,
    owner2: Seq<char>,
    now2: u64,
)
    requires
        allocated(m, live, key, AllocationMode::Acquire, Some(owner), now) is Ok,
        !live2.by_tap.dom().contains(tap_name(key)),
        !live2.slots.contains(allocated(m, live, key, AllocationMode::Acquire, Some(owner), now)->Ok_0.1),
    ensures
        ({
            let (m2, slot) = allocated(m, live, key, AllocationMode::Acquire, Some(owner), now)->Ok_0;
            let ended = claim_cleared(m2, key, owner);
            &&& ended is Ok
            &&& ended->Ok_0.dom() == m2.dom()
            &&& ended->Ok_0[key].slot == slot
            &&& allocated(
                swept(subnet, ended->Ok_0, live2, ev2, key, now2),
                live2,
                key,
                AllocationMode::Acquire,
                Some(owner2),
                now2,
            ) is Ok
            &&& allocated(
                swept(subnet, ended->Ok_0, live2, ev2, key, now2),
                live2,
                key,
                AllocationMode::Acquire,
                Some(owner2),
                now2,
            )->Ok_0.1 == slot
        }),
{
    let (m2, slot) = allocated(m, live, key, AllocationMode::Acquire, Some(owner), now)->Ok_0;
    law_allocate_touches_one_key(m, live, key, AllocationMode::Acquire, Some(owner), now);
    assert(m2[key].owner == Some(owner));
    let m3 = claim_cleared(m2, key, owner)->Ok_0;
    assert(m3.dom() =~= m2.dom());
    let s = swept(subnet, m3, live2, ev2, key, now2);
    assert(s.dom().contains(key));
    assert(s[key] == m3[key]);
    assert(s[key].reserved_until == 0);
}

/// Only the holder of a claim can end it: anyone else is refused.
pub proof fn law_stale_owner_cannot_clear(m: Map<Seq<char>, Assigned>, key: Seq<char>, owner: Seq<char>, stale: Seq<char>)
    requires
        m.dom().contains(key),
        m[key].owner == Some(owner),
        stale != owner,
    ensures
        claim_cleared(m, key, stale) == Err::<Map<Seq<char>, Assigned>, LinkFault>(LinkFault::OwnerChanged(key)),
{
}

/// Ending a claim keeps slots distinct and serving, and changes one key only.
pub proof fn law_clear_keeps_invariants(m: Map<Seq<char>, Assigned>, key: Seq<char>, owner: Seq<char>)
    requires
        claim_cleared(m, key, owner) is Ok,
    ensures
        distinct_slots(m) ==> distinct_slots(claim_cleared(m, key, owner)->Ok_0),
        serving_slots(m) ==> serving_slots(claim_cleared(m, key, owner)->Ok_0),
        forall|k: Seq<char>| #[trigger] m.dom().contains(k) && k != key ==> claim_cleared(m, key, owner)->Ok_0[k] == m[k],
{
    let m2 = claim_cleared(m, key, owner)->Ok_0;
    if distinct_slots(m) {
        assert forall|a: Seq<char>, b: Seq<char>|
            #[trigger] m2.dom().contains(a) && #[trigger] m2.dom().contains(b) && a != b implies m2[a].slot != m2[b].slot by {
            assert(m.dom().contains(a) && m.dom().contains(b));
        }
    }
    if serving_slots(m) {
        assert forall|k: Seq<char>| #[trigger] m2.dom().contains(k) implies m2[k].slot < SERVING_LINK_SLOTS by {
            assert(m.dom().contains(k));
        }
    }
}

/// Releasing an app keeps slots distinct and serving, leaves the keys of
/// other apps alone, and leaves no key of the app but those whose TAP is up
/// on their slot.
pub proof fn law_release(m: Map<Seq<char>, Assigned>, uuid: Seq<char>, live: LiveModel)
    ensures
        distinct_slots(m) ==> distinct_slots(released(m, uuid, live)),
        serving_slots(m) ==> serving_slots(released(m, uuid, live)),
        forall|k: Seq<char>| #[trigger] m.dom().contains(k) && !is_key_of(k, uuid) ==> released(m, uuid, live).dom().contains(k)
            && released(m, uuid, live)[k] == m[k],
        forall|k: Seq<char>| #[trigger]
            released(m, uuid, live).dom().contains(k) && is_key_of(k, uuid) ==> live.by_tap.dom().contains(tap_name(k))
                && live.by_tap[tap_name(k)] == m[k].slot,
{
}

/// While a launch claim lasts, which is two minutes, allocating a link for
/// another key neither drops the claimed key nor hands out its slot, whatever
/// is live and whatever disk holds; so the claim can still be confirmed.
pub proof fn law_claimed_link_is_safe(
    subnet: Seq<char>,
    m: Map<Seq<char>, Assigned>,
    live: LiveModel,
    key: Seq<char>,
    owner: Seq<char>,
    now: u64,
    live2: LiveModel,
    ev2: Seq<Evidence>,
    key2: Seq<char>,
    mode2: AllocationMode,
    owner2: Option<Seq<char>>,
    now2: u64,
)
    requires
        distinct_slots(m),
        key2 != key,
        now2 < now + 120,
        allocated(m, live, key, AllocationMode::Acquire, Some(owner), now) is Ok,
    ensures
        ({
            let (held, slot) = allocated(m, live, key, AllocationMode::Acquire, Some(owner), now)->Ok_0;
            let left = swept(subnet, held, live2, ev2, key2, now2);
            &&& held.dom().contains(key) && held[key].slot == slot
            &&& left.dom().contains(key) && left[key] == held[key]
            &&& allocated(left, live2, key2, mode2, owner2, now2) matches Ok((later, slot2)) ==> {
                &&& later.dom().contains(key) && later[key] == held[key]
                &&& slot2 != slot
                &&& claim_cleared(later, key, owner) is Ok
                &&& claim_cleared(later, key, owner)->Ok_0[key].slot == slot
            }
        }),
{
    let (held, slot) = allocated(m, live, key, AllocationMode::Acquire, Some(owner), now)->Ok_0;
    law_allocate_touches_one_key(m, live, key, AllocationMode::Acquire, Some(owner), now);
    law_allocate_keeps_distinct(m, live, key, AllocationMode::Acquire, Some(owner), now);
    law_recent_is_kept(subnet, held, live2, ev2, key2, now2, key);
    law_sweep_keeps_invariants(subnet, held, live2, ev2, key2, now2);
    let left = swept(subnet, held, live2, ev2, key2, now2);
    if allocated(left, live2, key2, mode2, owner2, now2) is Ok {
        law_allocate_touches_one_key(left, live2, key2, mode2, owner2, now2);
        law_allocate_keeps_distinct(left, live2, key2, mode2, owner2, now2);
        let later = allocated(left, live2, key2, mode2, owner2, now2)->Ok_0.0;
        assert(later.dom().contains(key) && later.dom().contains(key2));
        assert(held[key].owner == Some(owner));
    }
}

/// A launch claim lasts two minutes to the second: a second launch of the key
/// is refused up to then, and is given the same slot from then on, where
/// neither the key's TAP nor its slot is live.
pub proof fn law_claim_lasts_two_minutes(
    subnet: Seq<char>,
    m: Map<Seq<char>, Assigned>,
    live: LiveModel,
    key: Seq<char>,
    owner: Option<Seq<char>>,
    now: u64,
    live2: LiveModel,
    ev2: Seq<Evidence>,
    owner2: Option<Seq<char>>,
    now2: u64,
)
    requires
        allocated(m, live, key, AllocationMode::Acquire, owner, now) is Ok,
        now + 120 <= u64::MAX,
        !live2.by_tap.dom().contains(tap_name(key)),
        !live2.slots.contains(allocated(m, live, key, AllocationMode::Acquire, owner, now)->Ok_0.1),
    ensures
        ({
            let (held, slot) = allocated(m, live, key, AllocationMode::Acquire, owner, now)->Ok_0;
            let again = allocated(swept(subnet, held, live2, ev2, key, now2), live2, key, AllocationMode::Acquire, owner2, now2);
            if now2 < now + 120 {
                again == Err::<(Map<Seq<char>, Assigned>, u32), LinkFault>(LinkFault::AlreadyReserved(key))
            } else {
                again is Ok && again->Ok_0.1 == slot
            }
        }),
{
    let (held, slot) = allocated(m, live, key, AllocationMode::Acquire, owner, now)->Ok_0;
    law_allocate_touches_one_key(m, live, key, AllocationMode::Acquire, owner, now);
    let left = swept(subnet, held, live2, ev2, key, now2);
    assert(left.dom().contains(key) && left[key] == held[key]);
}

/// A key that holds a slot is given that slot again, as long as nothing else
/// is live on it; a key without one is given the slot that it prefers, if that
/// is neither held nor live.
pub proof fn law_slot_is_stable(
    m: Map<Seq<char>, Assigned>,
    live: LiveModel,
    key: Seq<char>,
    mode: AllocationMode,
    owner: Option<Seq<char>>,
    now: u64,
)
    requires
        !live.by_tap.dom().contains(tap_name(key)),
    ensures
        m.dom().contains(key) && !live.slots.contains(m[key].slot) && m[key].reserved_until <= now ==> {
            &&& allocated(m, live, key, mode, owner, now) is Ok
            &&& allocated(m, live, key, mode, owner, now)->Ok_0.1 == m[key].slot
        },
        !m.dom().contains(key) && !live.slots.contains(preferred(key) as u32) && (forall|k: Seq<char>| #[trigger]
            m.dom().contains(k) ==> m[k].slot != preferred(key)) ==> {
            &&& allocated(m, live, key, mode, owner, now) is Ok
            &&& allocated(m, live, key, mode, owner, now)->Ok_0.1 == preferred(key)
        },
{
    let taken = held_slots(m).union(live.slots);
    assert(round_slot(preferred(key), 0) == preferred(key));
    if !m.dom().contains(key) && !live.slots.contains(preferred(key) as u32) && (forall|k: Seq<char>| #[trigger]
        m.dom().contains(k) ==> m[k].slot != preferred(key)) {
        assert(!taken.contains(preferred(key) as u32));
        assert(first_free(preferred(key), taken, 0) == Some(preferred(key) as u32));
    }
}

/// Looking a link up claims nothing: the key can be launched at once. Taking
/// it for a launch notes who took it.
pub proof fn law_only_acquire_claims(
    m: Map<Seq<char>, Assigned>,
    live: LiveModel,
    key: Seq<char>,
    owner: Option<Seq<char>>,
    now: u64,
)
    requires
        !m.dom().contains(key),
        !live.by_tap.dom().contains(tap_name(key)),
    ensures
        allocated(m, live, key, AllocationMode::Reserve, None, now) matches Ok((looked, slot)) ==> {
            &&& allocated(looked, live, key, AllocationMode::Acquire, owner, now) matches Ok((taken, slot2)) && slot2 == slot
                && taken[key].owner == owner
        },
        allocated(m, live, key, AllocationMode::Acquire, owner, now) matches Ok((taken, slot)) ==> taken[key].owner == owner,
{
    law_first_free(preferred(key), held_slots(m).union(live.slots), 0);
}

/// Releasing an app drops its key without a reference and its key with any
/// reference, unless the key's TAP is up on its slot; then it stays as it is.
pub proof fn law_release_spares_live(m: Map<Seq<char>, Assigned>, uuid: Seq<char>, reff: Seq<char>, live: LiveModel, key: Seq<char>)
    requires
        m.dom().contains(key),
        key == uuid || key == uuid + ":"@ + reff,
    ensures
        released(m, uuid, live).dom().contains(key) <==> live.by_tap.dom().contains(tap_name(key)) && live.by_tap[tap_name(key)]
            == m[key].slot,
        released(m, uuid, live).dom().contains(key) ==> released(m, uuid, live)[key] == m[key],
{
    if key != uuid {
        let front = uuid + ":"@;
        assert((front + reff).take(front.len() as int) =~= front);
        assert(is_key_of(key, uuid));
    }
}

/// The first evidence about an app is the one that counts.
pub proof fn law_first_evidence_counts(ev: Seq<Evidence>, uuid: Seq<char>, k: int)
    requires
        0 <= k <= ev.len(),
        forall|i: int| 0 <= i < k ==> (#[trigger] ev[i]).uuid != uuid,
    ensures
        k < ev.len() && ev[k].uuid == uuid ==> evidence_for(ev, uuid) == Some(ev[k]),
        k == ev.len() ==> evidence_for(ev, uuid) is None,
    decreases k,
{
    if k > 0 {
        let rest = ev.skip(1);
        assert(ev[0].uuid != uuid);
        assert forall|i: int| 0 <= i < k - 1 implies (#[trigger] rest[i]).uuid != uuid by {
            assert(rest[i] == ev[i + 1]);
        }
        if k < ev.len() {
            assert(rest[k - 1] == ev[k]);
        }
        law_first_evidence_counts(rest, uuid, k - 1);
    }
}

/// A snapshot keeps the link that its guest was frozen with, however long ago
/// that was, and no other: both its files must be there, and slot, TAP and
/// subnet be the assigned ones.
pub proof fn law_frozen_link_is_kept(
    subnet: Seq<char>,
    key: Seq<char>,
    a: Assigned,
    live: LiveModel,
    ev: Seq<Evidence>,
    e: Evidence,
    net: Seq<char>,
    preserve: Seq<char>,
    now: u64,
)
    requires
        evidence_for(ev, key_uuid(key)) == Some(e),
        e.record is None,
        normalized(subnet) == Ok::<Seq<char>, LinkFault>(net),
        key != preserve,
        !live.by_tap.dom().contains(tap_name(key)),
        now - a.updated > 900,
    ensures
        keeps(subnet, key, a, live, ev, preserve, now) <==> {
            &&& e.cache.vmstate
            &&& e.cache.mem
            &&& e.cache.link is Some
            &&& e.cache.link->Some_0.slot == a.slot
            &&& e.cache.link->Some_0.tap_name == tap_name(key)
            &&& e.cache.link->Some_0.tap_subnet == net
        },
{
}

/// The record of an app owns the assignments of the one generation that it
/// names, and where it names none, those of the app itself.
pub proof fn law_record_owns_its_generation(uuid: Seq<char>, reff: Seq<char>, m: Map<Seq<char>, JsonModel>)
    requires
        !has_char(uuid, ':'),
    ensures
        ({
            let record = Some(JsonModel::Object(m));
            let names = m.dom().contains("image_ref"@) && m["image_ref"@] is Text;
            &&& record_names(uuid + ":"@ + reff, record) <==> names && m["image_ref"@]->Text_0 == reff
            &&& record_names(uuid, record) <==> !names
            &&& !record_names(uuid, None) && !record_names(uuid + ":"@ + reff, None)
        }),
{
    reveal_strlit(":");
    find_char_first(uuid, ':');
    let key = uuid + ":"@ + reff;
    assert(key =~= uuid.push(':') + reff);
    parted_after(uuid, ':', reff);
    find_char_unique(uuid, ':', uuid.len() as int);
    assert(uuid.take(uuid.len() as int) =~= uuid);
    if m.dom().contains("image_ref"@) && m["image_ref"@] is Text {
        let other = m["image_ref"@]->Text_0;
        if key == uuid + ":"@ + other {
            assert(key.skip(uuid.len() as int + 1) =~= reff);
            assert((uuid + ":"@ + other).skip(uuid.len() as int + 1) =~= other);
        }
    }
}

/// Looking up a key whose TAP is up adopts the slot that it really has,
/// whatever the table says, unless the table gives that slot to another key.
pub proof fn law_live_tap_is_adopted(m: Map<Seq<char>, Assigned>, live: LiveModel, key: Seq<char>, other: Seq<char>, now: u64)
    requires
        live.by_tap.dom().contains(tap_name(key)),
    ensures
        ({
            let slot = live.by_tap[tap_name(key)];
            let r = allocated(m, live, key, AllocationMode::Reserve, None, now);
            &&& m.dom().contains(other) && other != key && m[other].slot == slot ==> r is Err
            &&& r is Ok ==> r->Ok_0.1 == slot && r->Ok_0.0[key].slot == slot && r->Ok_0.0[key].updated == now
            &&& r is Ok && m.dom().contains(key) ==> r->Ok_0.0[key].owner == m[key].owner && r->Ok_0.0[key].reserved_until
                == m[key].reserved_until
            &&& (forall|k: Seq<char>| #[trigger] m.dom().contains(k) && k != key ==> m[k].slot != slot) ==> r is Ok
        }),
{
}

/// Releasing an app leaves the keys of every other app alone, also of one
/// whose name begins alike.
pub proof fn law_release_spares_others(m: Map<Seq<char>, Assigned>, uuid: Seq<char>, live: LiveModel, key: Seq<char>)
    requires
        !has_char(uuid, ':'),
        m.dom().contains(key),
        key_uuid(key) != uuid,
    ensures
        released(m, uuid, live).dom().contains(key),
        released(m, uuid, live)[key] == m[key],
{
    reveal_strlit(":");
    find_char_first(uuid, ':');
    find_char_unique(uuid, ':', uuid.len() as int);
    assert(uuid.take(uuid.len() as int) =~= uuid);
    let front = uuid + ":"@;
    if crate::text::begins_with(key, front) {
        let rest = key.skip(front.len() as int);
        assert(key =~= uuid.push(':') + rest) by {
            assert(key.take(front.len() as int) == front);
            assert(key =~= key.take(front.len() as int) + rest);
            assert(front =~= uuid.push(':'));
        }
        parted_after(uuid, ':', rest);
    }
}

} // verus!
