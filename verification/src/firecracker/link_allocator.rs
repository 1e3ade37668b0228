//! Host-wide assignment of Firecracker `/30` link slots.
//!
//! Runners of one host share a table of assignments, one per VM key. An
//! assignment lasts as long as something on the host owns it: a live TAP, a
//! snapshot, a runner record, or its own recent use.
use vstd::prelude::*;
use std::collections::HashSet;
use crate::firecracker::identity::{fc_tap_name_for_key, preferred, preferred_slot, tap_name};
use crate::firecracker::link_error::{LinkError, LinkFault};
use crate::firecracker::live_links::{LiveLinks, LiveModel};
use crate::firecracker::snapshot::{files_present, has_files, CacheDir, CacheModel};
use crate::firecracker::subnet::{normalize_subnet, normalized, SERVING_LINK_SLOTS};
use crate::json::{json_from_slice, json_parsed_bytes, string_member, text_member, JsonModel};
use crate::path::{join, joined};
use crate::text::{before_char, begins_with, concat3, opt_owned, opt_str, opt_text, text_eq, up_to_char};
use crate::text_map::TextMap;

verus! {

broadcast use vstd::std_specs::hash::group_hash_axioms;

/// How long an assignment that nothing owns is kept after its last use.
pub const RESERVATION_TTL_SECS: u64 = 900;

/// How long a launch claim lasts.
pub const LAUNCH_RESERVATION_SECS: u64 = 120;

/// One assignment.
#[derive(Debug)]
pub struct StoredAssignment {
    /// The `/30` slot.
    pub slot: u32,
    /// When the assignment was last used.
    pub updated_at_unix: u64,
    /// Until when a launch claims the key.
    pub launch_reserved_until_unix: u64,
    /// Who claims the key.
    pub launch_owner: Option<String>,
}

/// A `StoredAssignment` with its text as a sequence of characters.
#[verifier::ext_equal]
pub struct Assigned {
    pub slot: u32,
    pub updated: u64,
    pub reserved_until: u64,
    pub owner: Option<Seq<char>>,
}

impl View for StoredAssignment {
    type V = Assigned;

    open spec fn view(&self) -> Assigned {
        Assigned {
            slot: self.slot,
            updated: self.updated_at_unix,
            reserved_until: self.launch_reserved_until_unix,
            owner: opt_text(self.launch_owner),
        }
    }
}

/// The table of assignments, by VM key.
#[derive(Debug)]
pub struct AssignmentFile {
    /// The assignments.
    pub assignments: TextMap<StoredAssignment>,
}

impl View for AssignmentFile {
    type V = Map<Seq<char>, Assigned>;

    open spec fn view(&self) -> Map<Seq<char>, Assigned> {
        self.assignments@.map_values(|a: StoredAssignment| a@)
    }
}

impl AssignmentFile {
    /// Validity of the table.
    pub open spec fn wf(&self) -> bool {
        self.assignments.wf()
    }

    /// The table without assignments.
    pub fn new() -> (r: Self)
        ensures
            r.wf(),
            r@ == Map::<Seq<char>, Assigned>::empty(),
    {
        let r = AssignmentFile { assignments: TextMap::new() };
        assert(r@ =~= Map::empty());
        r
    }

    /// Sets the assignment of a key.
    pub fn set(&mut self, vm_key: &str, a: StoredAssignment)
        requires
            old(self).wf(),
        ensures
            final(self).wf(),
            final(self)@ == old(self)@.insert(vm_key@, a@),
    {
        self.assignments.insert(vm_key, a);
        assert(self@ =~= old(self)@.insert(vm_key@, a@));
    }

    /// The assignment of a key.
    pub fn get(&self, vm_key: &str) -> (r: Option<&StoredAssignment>)
        requires
            self.wf(),
        ensures
            match r {
                Some(a) => self@.dom().contains(vm_key@) && self@[vm_key@] == a@,
                None => !self@.dom().contains(vm_key@),
            },
    {
        self.assignments.get(vm_key)
    }
}

/// A durable link assignment for one VM key.
#[derive(Debug, Clone, PartialEq, Eq)]
pub struct LinkAllocation {
    /// `/30` slot in the tap subnet.
    pub slot: u32,
    /// TAP of this VM generation.
    pub tap_name: String,
    /// Normalized tap subnet that the link addresses derive from.
    pub tap_subnet: String,
}

/// What disk holds about one app that may own assignments.
#[derive(Debug)]
pub struct DiskEvidence {
    /// The app.
    pub uuid: String,
    /// Its snapshot cache directory.
    pub cache: CacheDir,
    /// Its runner record, if that could be read.
    pub record: Option<Vec<u8>>,
}

/// A `DiskEvidence` with its texts as sequences of characters.
pub struct Evidence {
    pub uuid: Seq<char>,
    pub cache: CacheModel,
    pub record: Option<Seq<u8>>,
}

impl View for DiskEvidence {
    type V = Evidence;

    open spec fn view(&self) -> Evidence {
        Evidence {
            uuid: self.uuid@,
            cache: self.cache@,
            record: match self.record {
                Some(r) => Some(r@),
                None => None,
            },
        }
    }
}

/// A list of evidence, item by item.
pub open spec fn evidence_view(v: Seq<DiskEvidence>) -> Seq<Evidence> {
    Seq::new(v.len(), |i: int| v[i]@)
}

/// The first evidence about the app `uuid`.
pub open spec fn evidence_for(ev: Seq<Evidence>, uuid: Seq<char>) -> Option<Evidence>
    decreases ev.len(),
{
    if ev.len() == 0 {
        None
    } else if ev[0].uuid == uuid {
        Some(ev[0])
    } else {
        evidence_for(ev.skip(1), uuid)
    }
}

/// Whether an assignment is looked up or taken for a launch.
#[derive(Debug, Clone, Copy, PartialEq, Eq, Structural)]
pub enum AllocationMode {
    Reserve,
    Acquire,
}

/// The app of a VM key: what stands in front of the first colon.
pub open spec fn key_uuid(vm_key: Seq<char>) -> Seq<char> {
    up_to_char(vm_key, ':')
}

/// The app of a VM key.
pub fn vm_uuid(vm_key: &str) -> (r: String)
    ensures
        r@ == key_uuid(vm_key@),
{
    before_char(vm_key, ':')
}

/// Does a snapshot own the assignment of `vm_key` to `slot`: are its files
/// there, and was its guest frozen on exactly that link?
pub open spec fn snapshot_owner(subnet: Seq<char>, vm_key: Seq<char>, slot: u32, cache: CacheModel) -> bool {
    &&& has_files(cache)
    &&& cache.link is Some
    &&& cache.link->Some_0.slot == slot
    &&& cache.link->Some_0.tap_name == tap_name(vm_key)
    &&& cache.link->Some_0.tap_subnet == (match normalized(subnet) {
        Ok(s) => s,
        Err(_) => Seq::empty(),
    })
}

/// Does a runner record, read as JSON, name `vm_key` as the current
/// generation of its app?
pub open spec fn record_names(vm_key: Seq<char>, record: Option<JsonModel>) -> bool {
    match record {
        None => false,
        Some(_) => match text_member(record, "image_ref"@) {
            Some(reff) => vm_key == key_uuid(vm_key) + ":"@ + reff,
            None => vm_key == key_uuid(vm_key),
        },
    }
}

/// Does the raw runner record own the assignments of `vm_key`?
pub open spec fn record_owner(vm_key: Seq<char>, raw: Option<Seq<u8>>) -> bool {
    match raw {
        None => false,
        Some(bytes) => record_names(vm_key, json_parsed_bytes(bytes)),
    }
}

/// Is an assignment kept when the table is swept?
pub open spec fn keeps(
    subnet: Seq<char>,
    key: Seq<char>,
    a: Assigned,
    live: LiveModel,
    ev: Seq<Evidence>,
    preserve: Seq<char>,
    now: u64,
) -> bool {
    ||| key == preserve
    ||| (live.by_tap.dom().contains(tap_name(key)) && live.by_tap[tap_name(key)] == a.slot)
    ||| (match evidence_for(ev, key_uuid(key)) {
        Some(e) => snapshot_owner(subnet, key, a.slot, e.cache) || record_owner(key, e.record),
        None => false,
    })
    ||| now - a.updated <= RESERVATION_TTL_SECS
}

/// The assignments that a sweep keeps.
pub open spec fn swept(
    subnet: Seq<char>,
    m: Map<Seq<char>, Assigned>,
    live: LiveModel,
    ev: Seq<Evidence>,
    preserve: Seq<char>,
    now: u64,
) -> Map<Seq<char>, Assigned> {
    Map::new(
        |k: Seq<char>| m.dom().contains(k) && keeps(subnet, k, m[k], live, ev, preserve, now),
        |k: Seq<char>| m[k],
    )
}

/// The slots that assignments hold.
pub open spec fn held_slots(m: Map<Seq<char>, Assigned>) -> Set<u32> {
    Set::new(|s: u32| exists|k: Seq<char>| #[trigger] m.dom().contains(k) && m[k].slot == s)
}

/// The first slot at or behind `start`, counted round, that is not taken;
/// the first `offset` ones are passed over.
pub open spec fn first_free(start: nat, taken: Set<u32>, offset: nat) -> Option<u32>
    decreases SERVING_LINK_SLOTS - offset,
{
    if offset >= SERVING_LINK_SLOTS {
        None
    } else {
        let s = ((start + offset) % (SERVING_LINK_SLOTS as nat)) as u32;
        if taken.contains(s) {
            first_free(start, taken, offset + 1)
        } else {
            Some(s)
        }
    }
}

/// The first serving slot at or behind `preferred`, counted round, that is
/// neither assigned nor live.
pub fn first_free_slot(preferred: u32, assigned: &HashSet<u32>, live: &HashSet<u32>) -> (r: Result<u32, LinkError>)
    requires
        preferred + SERVING_LINK_SLOTS <= u32::MAX,
    ensures
        match first_free(preferred as nat, assigned@.union(live@), 0) {
            Some(s) => r is Ok && r->Ok_0 == s,
            None => r is Err && r->Err_0@ == LinkFault::SlotsExhausted,
        },
{
    let mut offset: u32 = 0;
    while offset < SERVING_LINK_SLOTS
        invariant
            offset <= SERVING_LINK_SLOTS,
            preferred + SERVING_LINK_SLOTS <= u32::MAX,
            first_free(preferred as nat, assigned@.union(live@), 0) == first_free(
                preferred as nat,
                assigned@.union(live@),
                offset as nat,
            ),
        decreases SERVING_LINK_SLOTS - offset,
    {
        let slot: u32 = (preferred + offset) % SERVING_LINK_SLOTS;
        if !assigned.contains(&slot) && !live.contains(&slot) {
            return Ok(slot);
        }
        offset += 1;
    }
    Err(LinkError::SlotsExhausted)
}

/// The assignment that a launch or a lookup leaves behind.
pub open spec fn fresh(slot: u32, mode: AllocationMode, owner: Option<Seq<char>>, now: u64) -> Assigned {
    Assigned {
        slot,
        updated: now,
        reserved_until: if mode == AllocationMode::Acquire {
            claim_end(now)
        } else {
            0
        },
        owner,
    }
}

/// When a launch claim made now ends.
pub open spec fn claim_end(now: u64) -> u64 {
    if now + LAUNCH_RESERVATION_SECS > u64::MAX {
        u64::MAX
    } else {
        (now + LAUNCH_RESERVATION_SECS) as u64
    }
}

/// What allocating a link for `key` does to a swept table: the table after it
/// and the slot, or the reason for which there is none.
pub open spec fn allocated(
    m: Map<Seq<char>, Assigned>,
    live: LiveModel,
    key: Seq<char>,
    mode: AllocationMode,
    owner: Option<Seq<char>>,
    now: u64,
) -> Result<(Map<Seq<char>, Assigned>, u32), LinkFault> {
    let tap = tap_name(key);
    let up = live.by_tap.dom().contains(tap);
    let known = m.dom().contains(key);
    if mode == AllocationMode::Acquire && up {
        Err(LinkFault::TapStillLive { tap_name: tap, vm_key: key })
    } else if mode == AllocationMode::Acquire && known && m[key].reserved_until > now {
        Err(LinkFault::AlreadyReserved(key))
    } else if up {
        let slot = live.by_tap[tap];
        if exists|k: Seq<char>| #[trigger] m.dom().contains(k) && k != key && m[k].slot == slot {
            Err(LinkFault::LegacySlotTaken { tap_name: tap, slot })
        } else {
            let a = Assigned {
                slot,
                updated: now,
                reserved_until: if known {
                    m[key].reserved_until
                } else {
                    0
                },
                owner: if known {
                    m[key].owner
                } else {
                    None
                },
            };
            Ok((m.insert(key, a), slot))
        }
    } else if known && !live.slots.contains(m[key].slot) {
        let slot = m[key].slot;
        let a = if mode == AllocationMode::Acquire {
            fresh(slot, mode, owner, now)
        } else {
            Assigned { updated: now, ..m[key] }
        };
        Ok((m.insert(key, a), slot))
    } else {
        match first_free(preferred(key), held_slots(m).union(live.slots), 0) {
            Some(slot) => Ok((m.insert(key, fresh(slot, mode, owner, now)), slot)),
            None => Err(LinkFault::SlotsExhausted),
        }
    }
}

/// What ending the launch claim of `owner` on `key` does to the table.
pub open spec fn claim_cleared(m: Map<Seq<char>, Assigned>, key: Seq<char>, owner: Seq<char>) -> Result<
    Map<Seq<char>, Assigned>,
    LinkFault,
> {
    if !m.dom().contains(key) {
        Err(LinkFault::AssignmentGone(key))
    } else if m[key].owner != Some(owner) {
        Err(LinkFault::OwnerChanged(key))
    } else {
        Ok(m.insert(key, Assigned { owner: None, reserved_until: 0, ..m[key] }))
    }
}

/// Is `key` a VM key of the app `uuid`?
pub open spec fn is_key_of(key: Seq<char>, uuid: Seq<char>) -> bool {
    key == uuid || begins_with(key, uuid + ":"@)
}

/// Does releasing the app `uuid` leave this assignment in place?
pub open spec fn survives_release(key: Seq<char>, a: Assigned, uuid: Seq<char>, live: LiveModel) -> bool {
    !is_key_of(key, uuid) || (live.by_tap.dom().contains(tap_name(key)) && live.by_tap[tap_name(key)] == a.slot)
}

/// The assignments that are left after the app `uuid` was released.
pub open spec fn released(m: Map<Seq<char>, Assigned>, uuid: Seq<char>, live: LiveModel) -> Map<Seq<char>, Assigned> {
    Map::new(|k: Seq<char>| m.dom().contains(k) && survives_release(k, m[k], uuid, live), |k: Seq<char>| m[k])
}

/// Host-wide allocator of link slots.
#[derive(Debug)]
pub struct LinkSlotAllocator {
    /// Data directory that all runners of the host share.
    pub data_dir: String,
    /// Directory of the assignment table.
    pub root: String,
    /// Tap subnet as configured.
    pub tap_subnet: String,
}

/// The normalized form of a subnet, or the subnet as it is where it has none.
pub open spec fn shown_subnet(subnet: Seq<char>) -> Seq<char> {
    match normalized(subnet) {
        Ok(s) => s,
        Err(_) => subnet,
    }
}

/// The allocation has this slot, this key's TAP and this subnet.
pub open spec fn allocation_is(r: LinkAllocation, subnet: Seq<char>, vm_key: Seq<char>, slot: u32) -> bool {
    r.slot == slot && r.tap_name@ == tap_name(vm_key) && r.tap_subnet@ == shown_subnet(subnet)
}

/// A launch claim on a link. Confirming it, or giving it up, ends the claim
/// and keeps the assignment.
#[derive(Debug)]
pub struct LinkReservation {
    /// The claimed VM key.
    pub vm_key: String,
    /// Who holds the claim.
    pub owner: String,
    /// The assignment.
    pub held: LinkAllocation,
    /// Is the claim still to be ended?
    pub active: bool,
}

impl LinkReservation {
    /// The assignment that the claim is on.
    pub fn allocation(&self) -> (r: &LinkAllocation)
        ensures
            *r == self.held,
    {
        &self.held
    }

    /// Ends the claim after the runtime came up; the assignment stays.
    pub fn confirm(self, state: AssignmentFile) -> (r: Result<(AssignmentFile, LinkAllocation), LinkError>)
        requires
            state.wf(),
        ensures
            match claim_cleared(state@, self.vm_key@, self.owner@) {
                Ok(m) => r is Ok && r->Ok_0.0.wf() && r->Ok_0.0@ == m && r->Ok_0.1 == self.held,
                Err(f) => r is Err && r->Err_0@ == f,
            },
    {
        match clear_launch_owner(state, &self.vm_key, &self.owner) {
            Ok(s) => Ok((s, self.held)),
            Err(e) => Err(e),
        }
    }

    /// Ends the claim of a launch that did not come up, where it is still to be ended.
    pub fn abandon(&self, state: AssignmentFile) -> (r: Result<AssignmentFile, LinkError>)
        requires
            state.wf(),
        ensures
            if self.active {
                match claim_cleared(state@, self.vm_key@, self.owner@) {
                    Ok(m) => r is Ok && r->Ok_0.wf() && r->Ok_0@ == m,
                    Err(f) => r is Err && r->Err_0@ == f,
                }
            } else {
                r is Ok && r->Ok_0 == state
            },
    {
        if self.active {
            clear_launch_owner(state, &self.vm_key, &self.owner)
        } else {
            Ok(state)
        }
    }
}

/// Ends the launch claim of `owner` on `vm_key`.
pub fn clear_launch_owner(state: AssignmentFile, vm_key: &str, owner: &str) -> (r: Result<AssignmentFile, LinkError>)
    requires
        state.wf(),
    ensures
        match claim_cleared(state@, vm_key@, owner@) {
            Ok(m) => r is Ok && r->Ok_0.wf() && r->Ok_0@ == m,
            Err(f) => r is Err && r->Err_0@ == f,
        },
{
    let mut state = state;
    let next = match state.get(vm_key) {
        None => return Err(LinkError::AssignmentGone(vm_key.to_owned())),
        Some(stored) => {
            let mine = match &stored.launch_owner {
                Some(o) => text_eq(o, owner),
                None => false,
            };
            if !mine {
                return Err(LinkError::OwnerChanged(vm_key.to_owned()));
            }
            StoredAssignment {
                slot: stored.slot,
                updated_at_unix: stored.updated_at_unix,
                launch_reserved_until_unix: 0,
                launch_owner: None,
            }
        },
    };
    state.set(vm_key, next);
    Ok(state)
}

/// Does the runner record, read as JSON, name `vm_key` as the current
/// generation of its app?
pub fn record_names_key(vm_key: &str, record: &Option<serde_json::Value>) -> (r: bool)
    ensures
        r == record_names(vm_key@, crate::json::opt_json(*record)),
{
    match record {
        None => false,
        Some(_) => {
            let uuid = vm_uuid(vm_key);
            match string_member(record, "image_ref") {
                Some(reff) => {
                    let current = concat3(&uuid, ":", reff);
                    text_eq(vm_key, &current)
                },
                None => text_eq(vm_key, &uuid),
            }
        },
    }
}

/// Does the raw runner record own the assignments of `vm_key`?
pub fn runner_record_owns(vm_key: &str, raw: &Option<Vec<u8>>) -> (r: bool)
    ensures
        r == record_owner(
            vm_key@,
            match *raw {
                Some(b) => Some(b@),
                None => None,
            },
        ),
{
    match raw {
        None => false,
        Some(bytes) => {
            let record = json_from_slice(bytes);
            record_names_key(vm_key, &record)
        },
    }
}

/// Does the snapshot in `cache` own the assignment of `vm_key` to `slot`?
pub fn snapshot_owns(tap_subnet: &str, vm_key: &str, slot: u32, cache: &CacheDir) -> (r: bool)
    ensures
        r == snapshot_owner(tap_subnet@, vm_key@, slot, cache@),
{
    if !files_present(cache) {
        return false;
    }
    match &cache.link {
        None => false,
        Some(meta) => {
            let subnet = match normalize_subnet(tap_subnet) {
                Ok(s) => s,
                Err(_) => String::new(),
            };
            let tap = fc_tap_name_for_key(vm_key);
            meta.slot == slot && text_eq(&meta.tap_name, &tap) && text_eq(&meta.tap_subnet, &subnet)
        },
    }
}

/// The place of the first evidence about the app `uuid`.
fn find_evidence(ev: &Vec<DiskEvidence>, uuid: &str) -> (r: Option<usize>)
    ensures
        match r {
            Some(i) => i < ev@.len() && evidence_for(evidence_view(ev@), uuid@) == Some(ev@[i as int]@),
            None => evidence_for(evidence_view(ev@), uuid@) is None,
        },
{
    let mut i: usize = 0;
    let ghost all = evidence_view(ev@);
    assert(all.skip(0) =~= all);
    while i < ev.len()
        invariant
            i <= ev@.len(),
            all == evidence_view(ev@),
            evidence_for(all, uuid@) == evidence_for(all.skip(i as int), uuid@),
        decreases ev@.len() - i,
    {
        assert(all.skip(i as int)[0] == ev@[i as int]@);
        if text_eq(&ev[i].uuid, uuid) {
            return Some(i);
        }
        assert(all.skip(i as int).skip(1) =~= all.skip(i + 1));
        i += 1;
    }
    None
}

impl LinkSlotAllocator {
    /// An allocator over the data directory that all runners of the host share.
    pub fn new(data_dir: &str, tap_subnet: &str) -> (r: Self)
        ensures
            r.data_dir@ == data_dir@,
            r.root@ == joined(data_dir@, "fc-links"@),
            r.tap_subnet@ == tap_subnet@,
    {
        LinkSlotAllocator {
            data_dir: data_dir.to_owned(),
            root: join(data_dir, "fc-links"),
            tap_subnet: tap_subnet.to_owned(),
        }
    }

    /// How an assignment is handed out.
    pub fn allocation(&self, vm_key: &str, slot: u32) -> (r: LinkAllocation)
        ensures
            allocation_is(r, self.tap_subnet@, vm_key@, slot),
    {
        let subnet = match normalize_subnet(&self.tap_subnet) {
            Ok(s) => s,
            Err(_) => self.tap_subnet.clone(),
        };
        LinkAllocation { slot, tap_name: fc_tap_name_for_key(vm_key), tap_subnet: subnet }
    }

    /// Is an assignment kept when the table is swept?
    fn is_kept(&self, vm_key: &str, a: &StoredAssignment, live: &LiveLinks, preserve: &str, ev: &Vec<DiskEvidence>, now: u64) -> (r: bool)
        requires
            live.wf(),
        ensures
            r == keeps(self.tap_subnet@, vm_key@, a@, live@, evidence_view(ev@), preserve@, now),
    {
        if text_eq(vm_key, preserve) {
            return true;
        }
        let tap = fc_tap_name_for_key(vm_key);
        match live.by_tap.get(&tap) {
            Some(s) => {
                if *s == a.slot {
                    return true;
                }
            },
            None => {},
        }
        let uuid = vm_uuid(vm_key);
        match find_evidence(ev, &uuid) {
            Some(i) => {
                if snapshot_owns(&self.tap_subnet, vm_key, a.slot, &ev[i].cache) || runner_record_owns(vm_key, &ev[i].record) {
                    return true;
                }
            },
            None => {},
        }
        if now >= a.updated_at_unix {
            now - a.updated_at_unix <= RESERVATION_TTL_SECS
        } else {
            true
        }
    }

    /// Sweeps the table: drops what nothing owns and what was not used lately.
    pub fn gc(&self, state: &mut AssignmentFile, live: &LiveLinks, preserve: Option<&str>, ev: &Vec<DiskEvidence>, now: u64)
        requires
            old(state).wf(),
            live.wf(),
        ensures
            final(state).wf(),
            final(state)@ == swept(
                self.tap_subnet@,
                old(state)@,
                live@,
                evidence_view(ev@),
                match preserve {
                    Some(k) => k@,
                    None => Seq::empty(),
                },
                now,
            ),
    {
        let preserve_key = match preserve {
            Some(k) => k.to_owned(),
            None => String::new(),
        };
        let ghost m0 = old(state)@;
        let ghost pred = |k: Seq<char>| keeps(self.tap_subnet@, k, m0[k], live@, evidence_view(ev@), preserve_key@, now);
        let mut i: usize = 0;
        while i < state.assignments.len()
            invariant
                state.wf(),
                live.wf(),
                i <= state.assignments.keys().len(),
                m0 == old(state)@,
                pred == (|k: Seq<char>| keeps(self.tap_subnet@, k, m0[k], live@, evidence_view(ev@), preserve_key@, now)),
                forall|k: Seq<char>| #[trigger] state@.dom().contains(k) ==> m0.dom().contains(k) && m0[k] == state@[k],
                forall|k: Seq<char>| #[trigger] m0.dom().contains(k) && pred(k) ==> state@.dom().contains(k),
                forall|j: int| 0 <= j < i ==> pred(#[trigger] state.assignments.keys()[j]),
            decreases state.assignments.keys().len() - i,
        {
            let ghost key = state.assignments.keys()[i as int];
            proof {
                state.assignments.keys_are_domain();
                assert(state.assignments@.dom().contains(key));
                assert(state@.dom().contains(key));
            }
            let keep = self.is_kept(state.assignments.key_at(i), state.assignments.value_at(i), live, &preserve_key, ev, now);
            assert(keep == pred(key));
            if keep {
                i += 1;
            } else {
                let ghost before = *state;
                state.assignments.remove_at(i);
                proof {
                    assert(state@ =~= before@.remove(key));
                    assert forall|j: int| 0 <= j < i implies pred(#[trigger] state.assignments.keys()[j]) by {
                        assert(state.assignments.keys()[j] == before.assignments.keys()[j]);
                    }
                }
            }
        }
        proof {
            state.assignments.keys_are_domain();
            let want = swept(self.tap_subnet@, m0, live@, evidence_view(ev@), preserve_key@, now);
            assert forall|k: Seq<char>| #[trigger] state@.dom().contains(k) <==> want.dom().contains(k) by {
                if state@.dom().contains(k) {
                    assert(state.assignments@.dom().contains(k));
                    assert(state.assignments.keys().contains(k));
                    let j = choose|j: int| 0 <= j < state.assignments.keys().len() && state.assignments.keys()[j] == k;
                    assert(pred(state.assignments.keys()[j]));
                }
                if want.dom().contains(k) {
                    assert(m0.dom().contains(k) && pred(k));
                }
            }
            assert(state@ =~= want);
        }
    }

    /// The slots that assignments hold.
    fn assigned_slots(state: &AssignmentFile) -> (r: HashSet<u32>)
        requires
            state.wf(),
        ensures
            r@ == held_slots(state@),
    {
        let mut out: HashSet<u32> = HashSet::new();
        let mut i: usize = 0;
        while i < state.assignments.len()
            invariant
                state.wf(),
                i <= state.assignments.keys().len(),
                forall|s: u32|
                    #[trigger] out@.contains(s) <==> exists|j: int|
                        0 <= j < i && state@[#[trigger] state.assignments.keys()[j]].slot == s,
            decreases state.assignments.keys().len() - i,
        {
            let ghost before = out@;
            let ghost key = state.assignments.keys()[i as int];
            let a = state.assignments.value_at(i);
            assert(state@[key].slot == a.slot);
            out.insert(a.slot);
            proof {
                assert forall|s: u32| #[trigger] out@.contains(s) <==> exists|j: int|
                    0 <= j < i + 1 && state@[#[trigger] state.assignments.keys()[j]].slot == s by {
                    if out@.contains(s) {
                        if s == a.slot {
                            assert(state@[state.assignments.keys()[i as int]].slot == s);
                        } else {
                            assert(before.contains(s));
                        }
                    }
                    if exists|j: int| 0 <= j < i + 1 && state@[#[trigger] state.assignments.keys()[j]].slot == s {
                        let j = choose|j: int| 0 <= j < i + 1 && state@[#[trigger] state.assignments.keys()[j]].slot == s;
                        if j < i {
                            assert(before.contains(s));
                        }
                    }
                }
            }
            i += 1;
        }
        proof {
            state.assignments.keys_are_domain();
            assert forall|s: u32| #[trigger] out@.contains(s) <==> held_slots(state@).contains(s) by {
                if out@.contains(s) {
                    let j = choose|j: int| 0 <= j < i && state@[#[trigger] state.assignments.keys()[j]].slot == s;
                    let k = state.assignments.keys()[j];
                    assert(state.assignments@.dom().contains(k));
                    assert(state@.dom().contains(k));
                }
                if held_slots(state@).contains(s) {
                    let k = choose|k: Seq<char>| #[trigger] state@.dom().contains(k) && state@[k].slot == s;
                    assert(state.assignments@.dom().contains(k));
                    assert(state.assignments.keys().contains(k));
                    let j = choose|j: int| 0 <= j < state.assignments.keys().len() && state.assignments.keys()[j] == k;
                    assert(state@[state.assignments.keys()[j]].slot == s);
                }
            }
            assert(out@ =~= held_slots(state@));
        }
        out
    }

    /// Does a key other than `vm_key` hold `slot`?
    fn held_by_other(state: &AssignmentFile, vm_key: &str, slot: u32) -> (r: bool)
        requires
            state.wf(),
        ensures
            r == exists|k: Seq<char>| #[trigger] state@.dom().contains(k) && k != vm_key@ && state@[k].slot == slot,
    {
        let mut i: usize = 0;
        proof {
            state.assignments.keys_are_domain();
        }
        while i < state.assignments.len()
            invariant
                state.wf(),
                i <= state.assignments.keys().len(),
                forall|j: int| 0 <= j < i ==> {
                    let k = #[trigger] state.assignments.keys()[j];
                    k == vm_key@ || state@[k].slot != slot
                },
            decreases state.assignments.keys().len() - i,
        {
            let ghost key = state.assignments.keys()[i as int];
            let a = state.assignments.value_at(i);
            if !text_eq(state.assignments.key_at(i), vm_key) && a.slot == slot {
                assert(state@.dom().contains(key));
                return true;
            }
            i += 1;
        }
        proof {
            assert forall|k: Seq<char>| #[trigger] state@.dom().contains(k) implies k == vm_key@ || state@[k].slot != slot by {
                assert(state.assignments@.dom().contains(k));
                state.assignments.keys_are_domain();
                assert(state.assignments.keys().contains(k));
                let j = choose|j: int| 0 <= j < state.assignments.keys().len() && state.assignments.keys()[j] == k;
                let kk = state.assignments.keys()[j];
                assert(kk == vm_key@ || state@[kk].slot != slot);
            }
        }
        false
    }

    /// Sweeps the table and assigns a link to `vm_key`. The table is handed
    /// back changed where that succeeds; where it fails there is no new table.
    pub fn allocate(
        &self,
        state: AssignmentFile,
        vm_key: &str,
        mode: AllocationMode,
        live: &LiveLinks,
        launch_owner: Option<&str>,
        ev: &Vec<DiskEvidence>,
        now: u64,
    ) -> (r: Result<(AssignmentFile, LinkAllocation), LinkError>)
        requires
            state.wf(),
            live.wf(),
        ensures
            match allocated(
                swept(self.tap_subnet@, state@, live@, evidence_view(ev@), vm_key@, now),
                live@,
                vm_key@,
                mode,
                opt_str(launch_owner),
                now,
            ) {
                Ok((m, slot)) => r is Ok && r->Ok_0.0.wf() && r->Ok_0.0@ == m && allocation_is(
                    r->Ok_0.1,
                    self.tap_subnet@,
                    vm_key@,
                    slot,
                ),
                Err(f) => r is Err && r->Err_0@ == f,
            },
    {
        let mut state = state;
        self.gc(&mut state, live, Some(vm_key), ev, now);
        let tap = fc_tap_name_for_key(vm_key);
        let live_expected: Option<u32> = match live.by_tap.get(&tap) {
            Some(s) => Some(*s),
            None => None,
        };
        if mode == AllocationMode::Acquire && live_expected.is_some() {
            return Err(LinkError::TapStillLive { tap_name: tap, vm_key: vm_key.to_owned() });
        }
        if mode == AllocationMode::Acquire {
            match state.get(vm_key) {
                Some(stored) => {
                    if stored.launch_reserved_until_unix > now {
                        return Err(LinkError::AlreadyReserved(vm_key.to_owned()));
                    }
                },
                None => {},
            }
        }
        match live_expected {
            Some(actual_slot) => {
                if Self::held_by_other(&state, vm_key, actual_slot) {
                    return Err(LinkError::LegacySlotTaken { tap_name: tap, slot: actual_slot });
                }
                let (reserved_until, owner): (u64, Option<String>) = match state.get(vm_key) {
                    Some(stored) => (stored.launch_reserved_until_unix, stored.launch_owner.clone()),
                    None => (0, None),
                };
                let a = StoredAssignment {
                    slot: actual_slot,
                    updated_at_unix: now,
                    launch_reserved_until_unix: reserved_until,
                    launch_owner: owner,
                };
                state.set(vm_key, a);
                return Ok((state, self.allocation(vm_key, actual_slot)));
            },
            None => {},
        }
        let claim: u64 = now.saturating_add(LAUNCH_RESERVATION_SECS);
        let again: Option<StoredAssignment> = match state.get(vm_key) {
            Some(existing) => if !live.slots.contains(&existing.slot) {
                if mode == AllocationMode::Acquire {
                    Some(
                        StoredAssignment {
                            slot: existing.slot,
                            updated_at_unix: now,
                            launch_reserved_until_unix: claim,
                            launch_owner: opt_owned(launch_owner),
                        },
                    )
                } else {
                    Some(
                        StoredAssignment {
                            slot: existing.slot,
                            updated_at_unix: now,
                            launch_reserved_until_unix: existing.launch_reserved_until_unix,
                            launch_owner: existing.launch_owner.clone(),
                        },
                    )
                }
            } else {
                None
            },
            None => None,
        };
        match again {
            Some(a) => {
                let slot: u32 = a.slot;
                state.set(vm_key, a);
                return Ok((state, self.allocation(vm_key, slot)));
            },
            None => {},
        }
        let taken = Self::assigned_slots(&state);
        let slot: u32 = match first_free_slot(preferred_slot(vm_key), &taken, &live.slots) {
            Ok(s) => s,
            Err(e) => return Err(e),
        };
        let a = StoredAssignment {
            slot,
            updated_at_unix: now,
            launch_reserved_until_unix: if mode == AllocationMode::Acquire {
                claim
            } else {
                0
            },
            launch_owner: opt_owned(launch_owner),
        };
        state.set(vm_key, a);
        Ok((state, self.allocation(vm_key, slot)))
    }
}

} // verus!
